//! What comparing, joining, splitting and reading texts are for.
use vstd::prelude::*;

use crate::config::{
    listed, AsahiTrackerConfig, GitHubProjectTrackerConfig, ServiceConfig, TrackerConfig,
};
use crate::text::{
    all_digits, decimal, decimal_reads_back, digits_value, first_of, joined, lines_of, lower,
    lower_char, parsed_unsigned, places_of, same_ignoring_case, signed_decimal, texts, white,
};

verus! {

/// Whether two characters are one ASCII letter, the one small and the other a capital.
pub open spec fn letter_and_capital(small: char, capital: char) -> bool {
    'A' <= capital && capital <= 'Z' && small as int == capital as int + 32
}

/// Two texts are the same in any case exactly where they are as long as each other and
/// have at each place the same character, or the same ASCII letter in two cases.
pub proof fn case_is_all_that_may_differ(a: Seq<char>, b: Seq<char>)
    ensures
        same_ignoring_case(a, b) <==> a.len() == b.len() && forall|i: int|
            0 <= i < a.len() ==> (#[trigger] a[i] == b[i] || letter_and_capital(a[i], b[i])
                || letter_and_capital(b[i], a[i])),
{
    if same_ignoring_case(a, b) {
        assert(lower(a).len() == lower(b).len());
        assert forall|i: int| 0 <= i < a.len() implies (#[trigger] a[i] == b[i]
            || letter_and_capital(a[i], b[i]) || letter_and_capital(b[i], a[i])) by {
            assert(lower(a)[i] == lower(b)[i]);
            assert(lower_char(a[i]) == lower_char(b[i]));
        }
    }
    if a.len() == b.len() && forall|i: int|
        0 <= i < a.len() ==> (#[trigger] a[i] == b[i] || letter_and_capital(a[i], b[i])
            || letter_and_capital(b[i], a[i])) {
        assert forall|i: int| 0 <= i < a.len() implies lower(a)[i] == lower(b)[i] by {
            assert(a[i] == b[i] || letter_and_capital(a[i], b[i]) || letter_and_capital(b[i], a[i]));
        }
        assert(lower(a) =~= lower(b));
    }
}

/// Nothing is listed in an empty list; and a name at the end of a list lists what it is
/// in any case, and hides nothing.
pub proof fn every_name_lists_itself(names: Seq<Seq<char>>, last: Seq<char>, name: Seq<char>)
    ensures
        !listed(Seq::empty(), name),
        listed(names.push(last), name) <==> (listed(names, name) || same_ignoring_case(last, name)),
{
    let all = names.push(last);
    if listed(names, name) {
        let i = choose|i: int| 0 <= i < names.len() && same_ignoring_case(#[trigger] names[i], name);
        assert(same_ignoring_case(all[i], name));
    }
    if same_ignoring_case(last, name) {
        assert(same_ignoring_case(all[names.len() as int], name));
    }
    if listed(all, name) {
        let i = choose|i: int| 0 <= i < all.len() && same_ignoring_case(#[trigger] all[i], name);
        if i < names.len() {
            assert(same_ignoring_case(names[i], name));
        }
    }
}

/// An issue of a project is worked on in the states that are configured for it, and
/// finished in those that are configured for that.
pub proof fn projects_have_the_states_configured(config: GitHubProjectTrackerConfig)
    ensures
        TrackerConfig::GitHubProject(config).active() == texts(config.active_states@),
        TrackerConfig::GitHubProject(config).terminal() == texts(config.terminal_states@),
{
}

/// An issue of the local tracker is worked on while it is to be done or in progress,
/// and finished when it is done.
pub proof fn local_issues_are_done_or_to_be_done(config: AsahiTrackerConfig, state: Seq<char>)
    ensures
        listed(TrackerConfig::Asahi(config).active(), state) <==> (same_ignoring_case(
            "Todo"@,
            state,
        ) || same_ignoring_case("In Progress"@, state)),
        listed(TrackerConfig::Asahi(config).terminal(), state) <==> same_ignoring_case(
            "Done"@,
            state,
        ),
{
    let one = Seq::<Seq<char>>::empty().push("Todo"@);
    every_name_lists_itself(Seq::empty(), "Todo"@, state);
    every_name_lists_itself(one, "In Progress"@, state);
    every_name_lists_itself(Seq::empty(), "Done"@, state);
    assert(TrackerConfig::Asahi(config).active() =~= one.push("In Progress"@));
    assert(TrackerConfig::Asahi(config).terminal() =~= Seq::<Seq<char>>::empty().push("Done"@));
}

/// The rules go by the limits that are configured.
pub proof fn rules_go_by_the_configuration(config: ServiceConfig)
    ensures
        config.policy().active == config.tracker.active(),
        config.policy().terminal == config.tracker.terminal(),
        config.policy().max_concurrent == config.scheduler.max_concurrent,
        config.policy().max_by_state == config.scheduler.max_concurrent_by_state@,
        config.policy().retry_backoff_ms == config.scheduler.retry_backoff_ms,
        config.policy().stall_timeout_ms == config.runner.stall_timeout(),
{
}

/// No texts joined are the empty text; and a text joined to others stands at their end,
/// with the separator before it where there are others.
pub proof fn joined_texts_stand_in_order(parts: Seq<Seq<char>>, last: Seq<char>, sep: Seq<char>)
    ensures
        joined(Seq::empty(), sep).len() == 0,
        parts.len() == 0 ==> joined(parts.push(last), sep) == last,
        parts.len() > 0 ==> joined(parts.push(last), sep) == joined(parts, sep) + sep + last,
{
    assert(parts.push(last).drop_last() =~= parts);
}

/// The empty text has no lines. A text without a line end is one line. And a text that
/// begins with a line has that line first, without its end, and then the lines of the
/// rest.
pub proof fn lines_end_at_line_ends(line: Seq<char>, rest: Seq<char>)
    requires
        !line.contains('\n'),
    ensures
        lines_of(Seq::empty()).len() == 0,
        line.len() > 0 ==> lines_of(line) == seq![line],
        lines_of(line + "\n"@ + rest) == seq![
            if line.len() > 0 && line.last() == '\r' {
                line.drop_last()
            } else {
                line
            },
        ] + lines_of(rest),
{
    reveal_strlit("\n");
    let s = line + "\n"@ + rest;
    places_of(line, '\n');
    places_of(s, '\n');
    assert(first_of(line, '\n') == line.len()) by {
        if first_of(line, '\n') < line.len() {
            assert(line.contains(line[first_of(line, '\n')]));
        }
    }
    assert(s[line.len() as int] == '\n');
    assert(first_of(s, '\n') == line.len()) by {
        let k = first_of(s, '\n');
        if k < line.len() {
            assert(s[k] == line[k]);
            assert(line.contains(line[k]));
        }
    }
    assert(s.take(line.len() as int) =~= line);
    assert(s.skip(line.len() as int + 1) =~= rest);
}

/// Blanks, tabulators and line ends are white space, and no letter or digit is.
pub proof fn letters_are_not_white(c: char)
    ensures
        c == ' ' || c == '\t' || c == '\n' || c == '\r' ==> white(c),
        ('a' <= c && c <= 'z') || ('A' <= c && c <= 'Z') || ('0' <= c && c <= '9') ==> !white(c),
{
}

/// A number is negative exactly where a minus sign stands before its digits.
pub proof fn negative_numbers_bear_a_sign(n: nat)
    ensures
        signed_decimal(n as int) == decimal(n),
        n > 0 ==> signed_decimal(-(n as int)) == "-"@ + decimal(n),
{
    reveal_strlit("-");
    if n > 0 {
        assert(signed_decimal(-(n as int)) =~= "-"@ + decimal(n));
    }
}

/// A number is written without zeros before it; zero is one zero.
pub proof fn numbers_have_no_zeros_before_them(n: nat)
    ensures
        n > 0 ==> decimal(n)[0] != '0',
        decimal(0) == "0"@,
    decreases n,
{
    reveal_strlit("0");
    assert(decimal(0) =~= "0"@);
    if n >= 10 {
        numbers_have_no_zeros_before_them(n / 10);
        decimal_reads_back(n / 10);
        assert(decimal(n)[0] == decimal(n / 10)[0]);
    }
}

/// A text is read as a number where it is digits and no others, with or without a plus
/// sign, and the number is no larger than is allowed. Every digit counts ten times what
/// the next one does.
pub proof fn numbers_are_read_from_digits(s: Seq<char>, c: char, max: nat)
    ensures
        all_digits(s) && digits_value(s) <= max ==> parsed_unsigned(s, max) == Some(
            digits_value(s),
        ) && parsed_unsigned("+"@ + s, max) == Some(digits_value(s)),
        all_digits(s) && digits_value(s) > max ==> parsed_unsigned(s, max) is None,
        s.len() == 0 ==> parsed_unsigned(s, max) is None,
        s.len() > 0 && s[0] != '+' && !all_digits(s) ==> parsed_unsigned(s, max) is None,
        digits_value(Seq::empty()) == 0,
        '0' <= c && c <= '9' ==> digits_value(s.push(c)) == 10 * digits_value(s) + (c as int
            - '0' as int),
{
    reveal_strlit("+");
    let signed = "+"@ + s;
    assert(signed[0] == '+');
    assert(signed.drop_first() =~= s);
    assert(s.push(c).drop_last() =~= s);
    if all_digits(s) {
        assert(crate::text::digit(s[0]));
    }
}

} // verus!
