//! The files of a new project, and what `gh` says about it.
use vstd::prelude::*;

use crate::error::{ErrorView, LunaError};
use crate::init::{is_asahi, InitContext, InitView};
use crate::text::{
    cat, chars_of, decimal, first_of, from_utf8_lossy, join, joined, lines, lines_of, lossy,
    number_fault, opt_text, parse_u32, parsed_unsigned, places_of, same_text, texts, trim, trimmed,
    unsigned_text, white, without_cr,
};

verus! {

/// Refuses to overwrite a file that is there, unless it is forced.
pub fn write_file(path: &str, present: bool, force: bool) -> (r: Result<(), LunaError>)
    ensures
        (r is Ok) == (!present || force),
        r matches Err(e) ==> e@ == ErrorView::InvalidConfig(
            "refusing to overwrite existing file without --force: "@ + path@,
        ),
{
    if present && !force {
        return Err(
            LunaError::InvalidConfig(
                cat("refusing to overwrite existing file without --force: ", path),
            ),
        );
    }
    Ok(())
}

// ---------------------------------------------------------------------------
// .gitignore
// ---------------------------------------------------------------------------

/// The entries that the ignore file of a project has.
pub open spec fn gitignore_template() -> Seq<Seq<char>> {
    seq!["/target"@, ".env.luna"@, ".luna/"@, "asahi.db"@]
}

/// The entries that the ignore file of a project has.
pub fn gitignore_entries() -> (r: Vec<String>)
    ensures
        texts(r@) == gitignore_template(),
{
    let mut out: Vec<String> = Vec::new();
    out.push("/target".to_owned());
    out.push(".env.luna".to_owned());
    out.push(".luna/".to_owned());
    out.push("asahi.db".to_owned());
    assert(texts(out@) =~= gitignore_template());
    out
}

/// Whether some line is the entry, but for white space around it.
pub open spec fn has_entry(lines: Seq<Seq<char>>, entry: Seq<char>) -> bool {
    exists|i: int| 0 <= i < lines.len() && trimmed(#[trigger] lines[i]) == entry
}

/// The entries that no line is.
pub open spec fn missing_entries(lines: Seq<Seq<char>>, entries: Seq<Seq<char>>) -> Seq<Seq<char>>
    decreases entries.len(),
{
    if entries.len() == 0 {
        entries
    } else {
        let rest = missing_entries(lines, entries.drop_last());
        if has_entry(lines, entries.last()) {
            rest
        } else {
            rest.push(entries.last())
        }
    }
}

/// A file's text with entries behind it, one per line.
pub open spec fn with_entries(current: Seq<char>, missing: Seq<Seq<char>>) -> Seq<char> {
    let base = if current.len() > 0 && current.last() == '\n' {
        current
    } else {
        current.push('\n')
    };
    (base + joined(missing, "\n"@)).push('\n')
}

/// What is written to the ignore file, given its text where it is there, or nothing
/// where no entry is missing.
pub open spec fn gitignore_after(current: Option<Seq<char>>, entries: Seq<Seq<char>>) -> Option<
    Seq<char>,
> {
    match current {
        None => Some(joined(entries, "\n"@).push('\n')),
        Some(text) => {
            let missing = missing_entries(lines_of(text), entries);
            if missing.len() == 0 {
                None
            } else {
                Some(with_entries(text, missing))
            }
        },
    }
}

fn is_present(all: &Vec<String>, entry: &str) -> (r: bool)
    ensures
        r == has_entry(texts(all@), entry@),
{
    let mut i: usize = 0;
    while i < all.len()
        invariant
            i <= all@.len(),
            forall|k: int| 0 <= k < i ==> trimmed(#[trigger] texts(all@)[k]) != entry@,
        decreases all@.len() - i,
    {
        let bare = trim(all[i].as_str());
        if same_text(bare.as_str(), entry) {
            assert(trimmed(texts(all@)[i as int]) == entry@);
            return true;
        }
        i = i + 1;
    }
    false
}

/// What is written to the ignore file, given its text where it is there, or nothing
/// where no entry is missing.
pub fn ensure_gitignore_entries(current: Option<&str>, entries: &[String]) -> (r: Option<String>)
    ensures
        opt_text(r) == gitignore_after(
            match current {
                Some(text) => Some(text@),
                None => None,
            },
            texts(entries@),
        ),
{
    let current = match current {
        Some(current) => current,
        None => {
            let mut out = join(entries, "\n");
            out.push('\n');
            return Some(out);
        },
    };
    let all = lines(current);
    let mut missing: Vec<String> = Vec::new();
    let ghost wanted = texts(entries@);
    let mut i: usize = 0;
    assert(texts(missing@) =~= wanted.take(0));
    while i < entries.len()
        invariant
            i <= entries@.len(),
            wanted == texts(entries@),
            texts(all@) == lines_of(current@),
            texts(missing@) == missing_entries(lines_of(current@), wanted.take(i as int)),
        decreases entries@.len() - i,
    {
        let ghost before = texts(missing@);
        assert(wanted.take(i + 1).drop_last() =~= wanted.take(i as int));
        if !is_present(&all, entries[i].as_str()) {
            missing.push(entries[i].clone());
            assert(texts(missing@) =~= before.push(wanted[i as int]));
        }
        i = i + 1;
    }
    assert(wanted.take(i as int) =~= wanted);
    assert(texts(missing@).len() == missing@.len());
    if missing.len() == 0 {
        return None;
    }
    let v = chars_of(current);
    let mut out = current.to_owned();
    if !(v.len() > 0 && v[v.len() - 1] == '\n') {
        out.push('\n');
    }
    let list = join(missing.as_slice(), "\n");
    out.append(list.as_str());
    out.push('\n');
    Some(out)
}

// ---------------------------------------------------------------------------
// What is printed
// ---------------------------------------------------------------------------

/// The lines that sum up how a project is set up.
pub open spec fn summary_of(c: InitView) -> Seq<Seq<char>> {
    if is_asahi(c.tracker_kind) {
        seq![
            "Configured Luna for Asahi tracker `"@ + c.project_title + "` (db: "@ + (
            match c.asahi_db {
                Some(db) => db,
                None => "./asahi.db"@,
            }) + ", port: "@ + decimal(
                (match c.asahi_port {
                    Some(port) => port,
                    None => 0,
                }) as nat,
            ) + ")."@,
            "Luna will embed asahi automatically when running."@,
        ]
    } else {
        seq![
            "Configured Luna for GitHub Project `"@ + c.project_title + "` (owner `"@ + c.owner
                + "`, number "@ + decimal(c.project_number as nat) + ")."@,
            if c.created_project {
                "Project created. Open it with: gh project view "@ + decimal(
                    c.project_number as nat,
                ) + " --owner "@ + c.owner + " --web"@
            } else {
                "Project not created by Luna. If needed, create one with: gh project create --owner "@
                    + c.owner + " --title \""@ + c.project_title + "\""@
            },
        ]
    }
}

/// The lines that sum up how a project is set up.
pub fn print_init_summary(context: &InitContext) -> (r: Vec<String>)
    ensures
        texts(r@) == summary_of(context@),
{
    let mut out: Vec<String> = Vec::new();
    if same_text(context.tracker_kind.as_str(), "asahi") {
        let mut line = "Configured Luna for Asahi tracker `".to_owned();
        line.append(context.project_title.as_str());
        line.append("` (db: ");
        match &context.asahi_db {
            Some(db) => line.append(db.as_str()),
            None => line.append("./asahi.db"),
        }
        line.append(", port: ");
        let port: u16 = match context.asahi_port {
            Some(port) => port,
            None => 0,
        };
        let digits = unsigned_text(port as u64);
        line.append(digits.as_str());
        line.append(").");
        out.push(line);
        out.push("Luna will embed asahi automatically when running.".to_owned());
    } else {
        let digits = unsigned_text(context.project_number as u64);
        let mut line = "Configured Luna for GitHub Project `".to_owned();
        line.append(context.project_title.as_str());
        line.append("` (owner `");
        line.append(context.owner.as_str());
        line.append("`, number ");
        line.append(digits.as_str());
        line.append(").");
        out.push(line);
        if context.created_project {
            let mut line = "Project created. Open it with: gh project view ".to_owned();
            line.append(digits.as_str());
            line.append(" --owner ");
            line.append(context.owner.as_str());
            line.append(" --web");
            out.push(line);
        } else {
            let mut line =
                "Project not created by Luna. If needed, create one with: gh project create --owner ".to_owned();
            line.append(context.owner.as_str());
            line.append(" --title \"");
            line.append(context.project_title.as_str());
            line.append("\"");
            out.push(line);
        }
    }
    assert(texts(out@) =~= summary_of(context@));
    out
}

// ---------------------------------------------------------------------------
// gh
// ---------------------------------------------------------------------------

fn owned(words: &[&str]) -> (r: Vec<String>)
    ensures
        texts(r@) == Seq::new(words@.len(), |i: int| words@[i]@),
{
    let mut out: Vec<String> = Vec::new();
    let mut i: usize = 0;
    while i < words.len()
        invariant
            i <= words@.len(),
            out@.len() == i,
            forall|k: int| 0 <= k < i ==> #[trigger] out@[k]@ == words@[k]@,
        decreases words@.len() - i,
    {
        out.push(words[i].to_owned());
        i = i + 1;
    }
    assert(texts(out@) =~= Seq::new(words@.len(), |i: int| words@[i]@));
    out
}

/// The arguments that ask `gh` who is logged in.
pub fn login_args() -> (r: Vec<String>)
    ensures
        texts(r@) == seq!["api"@, "user"@, "--jq"@, ".login"@],
{
    let r = owned(&["api", "user", "--jq", ".login"]);
    assert(texts(r@) =~= seq!["api"@, "user"@, "--jq"@, ".login"@]);
    r
}

/// The arguments that ask `gh` for the repository of a directory.
pub fn repo_args() -> (r: Vec<String>)
    ensures
        texts(r@) == seq![
            "repo"@,
            "view"@,
            "--json"@,
            "nameWithOwner"@,
            "--jq"@,
            ".nameWithOwner"@,
        ],
{
    let r = owned(&["repo", "view", "--json", "nameWithOwner", "--jq", ".nameWithOwner"]);
    assert(texts(r@) =~= seq![
        "repo"@,
        "view"@,
        "--json"@,
        "nameWithOwner"@,
        "--jq"@,
        ".nameWithOwner"@,
    ]);
    r
}

/// The arguments that make `gh` create a project.
pub fn create_project_args(owner: &str, title: &str) -> (r: Vec<String>)
    ensures
        texts(r@) == seq![
            "project"@,
            "create"@,
            "--owner"@,
            owner@,
            "--title"@,
            title@,
            "--format"@,
            "json"@,
            "--jq"@,
            ".number"@,
        ],
{
    let r = owned(
        &[
            "project",
            "create",
            "--owner",
            owner,
            "--title",
            title,
            "--format",
            "json",
            "--jq",
            ".number",
        ],
    );
    assert(texts(r@) =~= seq![
        "project"@,
        "create"@,
        "--owner"@,
        owner@,
        "--title"@,
        title@,
        "--format"@,
        "json"@,
        "--jq"@,
        ".number"@,
    ]);
    r
}

/// The arguments that make `gh` link a repository to a project.
pub fn link_args(owner: &str, project_number: u32) -> (r: Vec<String>)
    ensures
        texts(r@) == seq![
            "project"@,
            "link"@,
            decimal(project_number as nat),
            "--owner"@,
            owner@,
        ],
{
    let number = unsigned_text(project_number as u64);
    let r = owned(&["project", "link", number.as_str(), "--owner", owner]);
    assert(texts(r@) =~= seq![
        "project"@,
        "link"@,
        decimal(project_number as nat),
        "--owner"@,
        owner@,
    ]);
    r
}

/// What `gh` said, or that it failed.
pub open spec fn gh_answer(
    args: Seq<Seq<char>>,
    success: bool,
    stdout: Seq<char>,
    stderr: Seq<char>,
) -> Result<Seq<char>, ErrorView> {
    if success {
        Ok(stdout)
    } else {
        Err(
            ErrorView::InvalidConfig(
                "`gh "@ + joined(args, " "@) + "` failed: "@ + trimmed(stderr),
            ),
        )
    }
}

/// What `gh` said, or that it failed, given its output as texts.
pub fn gh_result(args: &[String], success: bool, stdout: String, stderr: &str) -> (r: Result<
    String,
    LunaError,
>)
    ensures
        match r {
            Ok(text) => gh_answer(texts(args@), success, stdout@, stderr@) == Ok::<
                Seq<char>,
                ErrorView,
            >(text@),
            Err(e) => gh_answer(texts(args@), success, stdout@, stderr@) == Err::<
                Seq<char>,
                ErrorView,
            >(e@),
        },
{
    if success {
        return Ok(stdout);
    }
    let mut message = "`gh ".to_owned();
    let words = join(args, " ");
    message.append(words.as_str());
    message.append("` failed: ");
    let why = trim(stderr);
    message.append(why.as_str());
    Err(LunaError::InvalidConfig(message))
}

/// What `gh` said, or that it failed, given its output as bytes.
pub fn run_gh_capture(args: &[String], success: bool, stdout: &[u8], stderr: &[u8]) -> (r: Result<
    String,
    LunaError,
>)
    ensures
        match r {
            Ok(text) => gh_answer(texts(args@), success, lossy(stdout@), lossy(stderr@)) == Ok::<
                Seq<char>,
                ErrorView,
            >(text@),
            Err(e) => gh_answer(texts(args@), success, lossy(stdout@), lossy(stderr@)) == Err::<
                Seq<char>,
                ErrorView,
            >(e@),
        },
{
    let stdout = from_utf8_lossy(stdout);
    let stderr = from_utf8_lossy(stderr);
    gh_result(args, success, stdout, stderr.as_str())
}

/// A name that `gh` was asked for: what it said without white space around it, where
/// something is left.
pub fn detected_name(answer: Result<String, LunaError>) -> (r: Option<String>)
    ensures
        opt_text(r) == match answer {
            Ok(text) => if trimmed(text@).len() > 0 {
                Some(trimmed(text@))
            } else {
                None
            },
            Err(_) => None,
        },
{
    match answer {
        Ok(text) => {
            let name = trim(text.as_str());
            if name.as_str().is_empty() {
                None
            } else {
                Some(name)
            }
        },
        Err(_) => None,
    }
}

/// The number of the project that `gh` has created.
pub fn created_project_number(answer: Result<String, LunaError>) -> (r: Result<u32, LunaError>)
    ensures
        match answer {
            Ok(text) => match parsed_unsigned(trimmed(text@), u32::MAX as nat) {
                Some(n) => r matches Ok(m) && m == n,
                None => r matches Err(e) && e@ == ErrorView::InvalidConfig(
                    "failed to parse project number from `gh project create`: "@ + number_fault(
                        trimmed(text@),
                    ),
                ),
            },
            Err(e) => r matches Err(f) && f == e,
        },
{
    let text = match answer {
        Ok(text) => text,
        Err(e) => return Err(e),
    };
    let value = trim(text.as_str());
    match parse_u32(value.as_str()) {
        Ok(n) => Ok(n),
        Err(why) => Err(
            LunaError::InvalidConfig(
                cat(
                    "failed to parse project number from `gh project create`: ",
                    why.as_str(),
                ),
            ),
        ),
    }
}

// ---------------------------------------------------------------------------
// Laws
// ---------------------------------------------------------------------------

proof fn first_of_in(a: Seq<char>, b: Seq<char>, c: char)
    requires
        first_of(a, c) < a.len(),
    ensures
        first_of(a + b, c) == first_of(a, c),
    decreases a.len(),
{
    places_of(a, c);
    assert((a + b).drop_first() =~= a.drop_first() + b);
    if a[0] != c {
        first_of_in(a.drop_first(), b, c);
    }
}

proof fn lines_append(a: Seq<char>, b: Seq<char>)
    requires
        a.len() > 0,
        a.last() == '\n',
    ensures
        lines_of(a + b) == lines_of(a) + lines_of(b),
    decreases a.len(),
{
    let k = first_of(a, '\n');
    places_of(a, '\n');
    first_of_in(a, b, '\n');
    let rest = a.skip(k + 1);
    assert((a + b).take(k) =~= a.take(k));
    assert((a + b).skip(k + 1) =~= rest + b);
    if rest.len() > 0 {
        lines_append(rest, b);
        assert(lines_of(a + b) =~= lines_of(a) + lines_of(b));
    } else {
        assert(rest + b =~= b);
        assert(lines_of(rest) =~= Seq::<Seq<char>>::empty());
        assert(lines_of(a + b) =~= lines_of(a) + lines_of(b));
    }
}

/// Whether a text can stand on a line of its own as it is.
pub open spec fn clean(entry: Seq<char>) -> bool {
    !entry.contains('\n') && trimmed(entry) == entry
}

proof fn line_of_entry(entry: Seq<char>)
    requires
        clean(entry),
    ensures
        lines_of(entry.push('\n')) == seq![entry],
{
    let s = entry.push('\n');
    places_of(s, '\n');
    let k = first_of(s, '\n');
    assert(k == entry.len()) by {
        if k < entry.len() {
            assert(s[k] == entry[k]);
            assert(entry.contains(entry[k]));
        }
    }
    crate::text::trimmed_is_tight(entry);
    assert(s.take(k) =~= entry);
    assert(s.skip(k + 1).len() == 0);
    assert(lines_of(s.skip(k + 1)) =~= Seq::<Seq<char>>::empty());
    assert(without_cr(entry) == entry);
    assert(lines_of(s) =~= seq![entry]);
}

proof fn lines_of_entries(entries: Seq<Seq<char>>)
    requires
        entries.len() > 0,
        forall|i: int| 0 <= i < entries.len() ==> clean(#[trigger] entries[i]),
    ensures
        lines_of(joined(entries, "\n"@).push('\n')) == entries,
    decreases entries.len(),
{
    reveal_strlit("\n");
    let last = entries.last();
    assert(clean(entries[entries.len() - 1]));
    line_of_entry(last);
    if entries.len() == 1 {
        assert(entries =~= seq![last]);
    } else {
        let head = entries.drop_last();
        assert forall|i: int| 0 <= i < head.len() implies clean(#[trigger] head[i]) by {
            assert(head[i] == entries[i]);
        }
        lines_of_entries(head);
        let a = joined(head, "\n"@).push('\n');
        assert(joined(entries, "\n"@).push('\n') =~= a + last.push('\n'));
        lines_append(a, last.push('\n'));
        assert(head + seq![last] =~= entries);
    }
}

proof fn trim_start_of_pushed(s: Seq<char>, c: char)
    requires
        white(c),
    ensures
        crate::text::trim_start(s).len() > 0 ==> crate::text::trim_start(s.push(c))
            == crate::text::trim_start(s).push(c),
        crate::text::trim_start(s).len() == 0 ==> crate::text::trim_start(s.push(c)).len() == 0,
    decreases s.len(),
{
    let t = s.push(c);
    if s.len() == 0 {
        assert(t.drop_first() =~= Seq::<char>::empty());
        assert(crate::text::trim_start(Seq::<char>::empty()) =~= Seq::<char>::empty());
    } else {
        assert(t.drop_first() =~= s.drop_first().push(c));
        if white(s[0]) {
            trim_start_of_pushed(s.drop_first(), c);
        }
    }
}

proof fn trimmed_of_pushed(s: Seq<char>, c: char)
    requires
        white(c),
    ensures
        trimmed(s.push(c)) == trimmed(s),
{
    trim_start_of_pushed(s, c);
    let a = crate::text::trim_start(s);
    if a.len() > 0 {
        assert(a.push(c).drop_last() =~= a);
    } else {
        assert(crate::text::trim_start(s.push(c)) =~= a);
    }
}

proof fn entry_kept(text: Seq<char>, entry: Seq<char>)
    requires
        has_entry(lines_of(text), entry),
        text.len() == 0 || text.last() != '\n',
    ensures
        has_entry(lines_of(text.push('\n')), entry),
    decreases text.len(),
{
    let k = first_of(text, '\n');
    places_of(text, '\n');
    let i = choose|i: int|
        0 <= i < lines_of(text).len() && trimmed(#[trigger] lines_of(text)[i]) == entry;
    let more = text.push('\n');
    if k < text.len() {
        assert(text.push('\n') =~= text + seq!['\n']);
        first_of_in(text, seq!['\n'], '\n');
        assert(more.take(k) =~= text.take(k));
        let rest = text.skip(k + 1);
        assert(more.skip(k + 1) =~= rest.push('\n'));
        if i == 0 {
            assert(lines_of(more)[0] == lines_of(text)[0]);
        } else {
            assert(lines_of(rest)[i - 1] == lines_of(text)[i]);
            entry_kept(rest, entry);
            let j = choose|j: int|
                0 <= j < lines_of(rest.push('\n')).len() && trimmed(
                    #[trigger] lines_of(rest.push('\n'))[j],
                ) == entry;
            assert(lines_of(more)[j + 1] == lines_of(rest.push('\n'))[j]);
        }
    } else {
        places_of(more, '\n');
        assert(first_of(more, '\n') == text.len()) by {
            let m = first_of(more, '\n');
            if m < text.len() {
                assert(more[m] == text[m]);
            }
        }
        assert(more.take(text.len() as int) =~= text);
        assert(lines_of(more)[0] == without_cr(text));
        if text.len() > 0 && text.last() == '\r' {
            assert(text =~= text.drop_last().push('\r'));
            trimmed_of_pushed(text.drop_last(), '\r');
        }
        assert(trimmed(lines_of(more)[0]) == entry);
    }
}

proof fn missing_or_present(lines: Seq<Seq<char>>, entries: Seq<Seq<char>>)
    ensures
        forall|i: int|
            0 <= i < entries.len() ==> has_entry(lines, #[trigger] entries[i]) || missing_entries(
                lines,
                entries,
            ).contains(entries[i]),
        forall|i: int|
            0 <= i < missing_entries(lines, entries).len() ==> entries.contains(
                #[trigger] missing_entries(lines, entries)[i],
            ),
        (forall|i: int| 0 <= i < entries.len() ==> has_entry(lines, #[trigger] entries[i]))
            ==> missing_entries(lines, entries).len() == 0,
    decreases entries.len(),
{
    if entries.len() > 0 {
        let rest = entries.drop_last();
        missing_or_present(lines, rest);
        let m = missing_entries(lines, rest);
        let all = missing_entries(lines, entries);
        assert forall|i: int| 0 <= i < entries.len() implies has_entry(lines, #[trigger] entries[i])
            || all.contains(entries[i]) by {
            if i < rest.len() {
                assert(rest[i] == entries[i]);
                if m.contains(entries[i]) {
                    let j = m.index_of(entries[i]);
                    assert(all[j] == entries[i]);
                }
            } else if !has_entry(lines, entries[i]) {
                assert(all[m.len() as int] == entries[i]);
            }
        }
        assert forall|i: int| 0 <= i < all.len() implies entries.contains(#[trigger] all[i]) by {
            if i < m.len() {
                assert(all[i] == m[i]);
                let j = rest.index_of(m[i]);
                assert(entries[j] == m[i]);
            } else {
                assert(entries[entries.len() - 1] == all[i]);
            }
        }
        if forall|i: int| 0 <= i < entries.len() ==> has_entry(lines, #[trigger] entries[i]) {
            assert forall|i: int| 0 <= i < rest.len() implies has_entry(lines, #[trigger] rest[i]) by {
                assert(rest[i] == entries[i]);
            }
            assert(has_entry(lines, entries[entries.len() - 1]));
        }
    }
}

/// Once the entries have been added to the ignore file, none is missing.
pub proof fn gitignore_settles(current: Option<Seq<char>>, entries: Seq<Seq<char>>)
    requires
        entries.len() > 0,
        forall|i: int| 0 <= i < entries.len() ==> clean(#[trigger] entries[i]),
    ensures
        gitignore_after(current, entries) matches Some(text) ==> gitignore_after(
            Some(text),
            entries,
        ) is None,
{
    reveal_strlit("\n");
    if gitignore_after(current, entries) is Some {
        let text = gitignore_after(current, entries)->Some_0;
        let after = lines_of(text);
        missing_or_present(after, entries);
        match current {
            None => {
                lines_of_entries(entries);
                assert forall|i: int| 0 <= i < entries.len() implies has_entry(
                    after,
                    #[trigger] entries[i],
                ) by {
                    assert(trimmed(after[i]) == entries[i]);
                }
            },
            Some(before) => {
                let old_lines = lines_of(before);
                let missing = missing_entries(old_lines, entries);
                missing_or_present(old_lines, entries);
                assert forall|i: int| 0 <= i < missing.len() implies clean(#[trigger] missing[i]) by {
                    let j = entries.index_of(missing[i]);
                    assert(clean(entries[j]));
                }
                lines_of_entries(missing);
                let base = if before.len() > 0 && before.last() == '\n' {
                    before
                } else {
                    before.push('\n')
                };
                let list = joined(missing, "\n"@).push('\n');
                assert(text =~= base + list);
                lines_append(base, list);
                assert(after == lines_of(base) + missing);
                assert forall|i: int| 0 <= i < entries.len() implies has_entry(
                    after,
                    #[trigger] entries[i],
                ) by {
                    let entry = entries[i];
                    assert(clean(entry));
                    if has_entry(old_lines, entry) {
                        if base != before {
                            entry_kept(before, entry);
                        }
                        let j = choose|j: int|
                            0 <= j < lines_of(base).len() && trimmed(#[trigger] lines_of(base)[j])
                                == entry;
                        assert(after[j] == lines_of(base)[j]);
                    } else {
                        let j = missing.index_of(entry);
                        assert(after[lines_of(base).len() + j] == missing[j]);
                    }
                }
            },
        }
    }
}

/// What stood in the ignore file stays at its start.
pub proof fn gitignore_keeps_what_was_there(current: Seq<char>, entries: Seq<Seq<char>>)
    ensures
        gitignore_after(Some(current), entries) matches Some(text) ==> current.is_prefix_of(text),
{
    if gitignore_after(Some(current), entries) is Some {
        let text = gitignore_after(Some(current), entries)->Some_0;
        assert(text.subrange(0, current.len() as int) =~= current);
    }
}

/// The entries of a project can each stand on a line, so adding them settles.
pub proof fn template_is_clean()
    ensures
        gitignore_template().len() > 0,
        forall|i: int|
            0 <= i < gitignore_template().len() ==> clean(#[trigger] gitignore_template()[i]),
{
    reveal_strlit("/target");
    reveal_strlit(".env.luna");
    reveal_strlit(".luna/");
    reveal_strlit("asahi.db");
    assert forall|i: int| 0 <= i < gitignore_template().len() implies clean(
        #[trigger] gitignore_template()[i],
    ) by {
        let e = gitignore_template()[i];
        crate::text::trimmed_fixed(e);
        assert forall|j: int| 0 <= j < e.len() implies e[j] != '\n' by {}
    }
}

} // verus!
