//! Questions to the user, and what the answers mean.
use vstd::prelude::*;

use crate::error::{ErrorView, LunaError};
use crate::text::{
    cat, decimal, lowercase, number_fault, parse_u32, parse_unsigned, parsed_unsigned, same_text,
    texts, to_lowercase, trim, trimmed, unsigned_text,
};

verus! {

/// An answer without white space around it, or the default where nothing is left.
pub open spec fn answer_or(input: Seq<char>, default: Seq<char>) -> Seq<char> {
    if trimmed(input).len() == 0 {
        default
    } else {
        trimmed(input)
    }
}

/// The question for a text.
pub fn string_question(label: &str, default: &str) -> (r: String)
    ensures
        r@ == label@ + " ["@ + default@ + "]: "@,
{
    let mut out = label.to_owned();
    out.append(" [");
    out.append(default);
    out.append("]: ");
    out
}

/// What was answered to the question for a text.
pub fn prompt_string(input: &str, default: &str) -> (r: String)
    ensures
        r@ == answer_or(input@, default@),
{
    let value = trim(input);
    if value.as_str().is_empty() {
        default.to_owned()
    } else {
        value
    }
}

/// The question for yes or no.
pub fn confirm_question(label: &str, default: bool) -> (r: String)
    ensures
        r@ == label@ + " ["@ + (if default {
            "Y/n"@
        } else {
            "y/N"@
        }) + "]: "@,
{
    string_question(
        label,
        if default {
            "Y/n"
        } else {
            "y/N"
        },
    )
}

/// Whether a word in lower case means yes; no word means the default.
pub open spec fn means_yes(word: Seq<char>, default: bool) -> bool {
    if word.len() == 0 {
        default
    } else {
        word == "y"@ || word == "yes"@
    }
}

/// Whether a word in lower case means yes.
pub fn confirm_word(word: &str, default: bool) -> (r: bool)
    ensures
        r == means_yes(word@, default),
{
    if word.is_empty() {
        default
    } else {
        same_text(word, "y") || same_text(word, "yes")
    }
}

/// What was answered to the question for yes or no.
pub fn prompt_confirm(input: &str, default: bool) -> (r: bool)
    ensures
        r == means_yes(lowercase(trimmed(input@)), default),
{
    let bare = trim(input);
    let word = to_lowercase(bare.as_str());
    confirm_word(word.as_str(), default)
}

/// What was answered to the question for a number.
pub fn prompt_u32(label: &str, input: &str, default: u32) -> (r: Result<u32, LunaError>)
    ensures
        ({
            let value = answer_or(input@, decimal(default as nat));
            match parsed_unsigned(value, u32::MAX as nat) {
                Some(n) => r matches Ok(m) && m == n,
                None => r matches Err(e) && e@ == ErrorView::InvalidConfig(
                    "invalid integer for `"@ + label@ + "`: "@ + number_fault(value),
                ),
            }
        }),
{
    let shown = unsigned_text(default as u64);
    let value = prompt_string(input, shown.as_str());
    match parse_u32(value.as_str()) {
        Ok(n) => Ok(n),
        Err(why) => {
            let mut message = "invalid integer for `".to_owned();
            message.append(label);
            message.append("`: ");
            message.append(why.as_str());
            Err(LunaError::InvalidConfig(message))
        },
    }
}

/// The line for a choice: its number, its name, and a star at the default.
pub open spec fn choice_line(i: int, name: Seq<char>, default_index: int) -> Seq<char> {
    "  "@ + decimal((i + 1) as nat) + ") "@ + name + (if i == default_index {
        " *"@
    } else {
        ""@
    }) + "\n"@
}

/// The lines for the first `n` choices.
pub open spec fn choice_lines(choices: Seq<Seq<char>>, default_index: int, n: int) -> Seq<char>
    decreases n,
{
    if n <= 0 {
        Seq::empty()
    } else {
        choice_lines(choices, default_index, n - 1) + choice_line(
            n - 1,
            choices[n - 1],
            default_index,
        )
    }
}

/// The question for a choice.
pub fn choice_question(label: &str, choices: &[String], default_index: usize) -> (r: String)
    requires
        default_index < usize::MAX,
    ensures
        r@ == label@ + ":\n"@ + choice_lines(
            texts(choices@),
            default_index as int,
            choices@.len() as int,
        ) + "[default: "@ + decimal((default_index + 1) as nat) + "]: "@,
{
    let mut out = cat(label, ":\n");
    let mut list = String::new();
    let mut i: usize = 0;
    while i < choices.len()
        invariant
            i <= choices@.len(),
            list@ == choice_lines(texts(choices@), default_index as int, i as int),
        decreases choices@.len() - i,
    {
        let ghost before = list@;
        let number = unsigned_text((i + 1) as u64);
        let mut line = "  ".to_owned();
        line.append(number.as_str());
        line.append(") ");
        line.append(choices[i].as_str());
        if i == default_index {
            line.append(" *");
        } else {
            line.append("");
        }
        line.append("\n");
        assert(line@ == choice_line(i as int, texts(choices@)[i as int], default_index as int));
        list.append(line.as_str());
        i = i + 1;
    }
    out.append(list.as_str());
    out.append("[default: ");
    let number = unsigned_text((default_index + 1) as u64);
    out.append(number.as_str());
    out.append("]: ");
    out
}

/// What was answered to the question for a choice: the default, or the choice whose
/// number was given.
pub fn prompt_choice(label: &str, input: &str, choices: &[String], default_index: usize) -> (r:
    Result<String, LunaError>)
    requires
        trimmed(input@).len() == 0 ==> default_index < choices@.len(),
    ensures
        ({
            let value = trimmed(input@);
            let number = parsed_unsigned(value, choices@.len());
            if value.len() == 0 {
                r matches Ok(name) && name@ == texts(choices@)[default_index as int]
            } else if number is Some && number->Some_0 > 0 {
                r matches Ok(name) && name@ == texts(choices@)[number->Some_0 - 1]
            } else {
                r matches Err(e) && e@ == ErrorView::InvalidConfig(
                    "invalid choice for `"@ + label@ + "`: "@ + value,
                )
            }
        }),
{
    let value = trim(input);
    if value.as_str().is_empty() {
        return Ok(choices[default_index].clone());
    }
    match parse_unsigned(value.as_str(), choices.len() as u64) {
        Some(number) => if number > 0 {
            return Ok(choices[(number - 1) as usize].clone());
        },
        None => {},
    }
    let mut message = "invalid choice for `".to_owned();
    message.append(label);
    message.append("`: ");
    message.append(value.as_str());
    Err(LunaError::InvalidConfig(message))
}

/// A number that is shown as the default is taken when nothing is answered.
pub proof fn default_number_is_taken(input: Seq<char>, default: u32)
    requires
        trimmed(input).len() == 0,
    ensures
        parsed_unsigned(answer_or(input, decimal(default as nat)), u32::MAX as nat) == Some(
            default as nat,
        ),
{
    crate::text::decimal_reads_back(default as nat);
}

} // verus!
