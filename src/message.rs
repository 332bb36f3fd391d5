use vstd::prelude::*;

verus! {

/// The characters with Unicode's White_Space property.
pub open spec fn is_white_space(c: char) -> bool {
    ('\u{9}' <= c && c <= '\u{d}') || c == ' ' || c == '\u{85}' || c == '\u{a0}' || c
        == '\u{1680}' || ('\u{2000}' <= c && c <= '\u{200a}') || c == '\u{2028}' || c
        == '\u{2029}' || c == '\u{202f}' || c == '\u{205f}' || c == '\u{3000}'
}

/// `s` without its leading white space.
pub open spec fn trimmed_start(s: Seq<char>) -> Seq<char>
    decreases s.len(),
{
    if s.len() > 0 && is_white_space(s[0]) {
        trimmed_start(s.drop_first())
    } else {
        s
    }
}

/// `s` without its trailing white space.
pub open spec fn trimmed_end(s: Seq<char>) -> Seq<char>
    decreases s.len(),
{
    if s.len() > 0 && is_white_space(s.last()) {
        trimmed_end(s.drop_last())
    } else {
        s
    }
}

/// `s` without its leading and trailing white space.
pub open spec fn trimmed(s: Seq<char>) -> Seq<char> {
    trimmed_end(trimmed_start(s))
}

/// The blank line that parts a subject from the body.
pub open spec fn subject_separator() -> Seq<char> {
    seq!['\n', '\n']
}

/// The message sent for an optional subject and a raw body.
pub open spec fn composed(subject: Option<Seq<char>>, body: Seq<char>) -> Seq<char> {
    match subject {
        Some(s) => trimmed(s) + subject_separator() + trimmed(body),
        None => trimmed(body),
    }
}

/// Relies on `str::trim`: it removes leading and trailing characters with the
/// White_Space property.
#[verifier::external_body]
fn trim(s: &str) -> (r: String)
    ensures
        r@ == trimmed(s@),
{
    String::from(s.trim())
}

/// The message for a subject and a body that are already trimmed.
pub open spec fn assembled(subject: Option<Seq<char>>, body: Seq<char>) -> Seq<char> {
    match subject {
        Some(s) => s + subject_separator() + body,
        None => body,
    }
}

/// Joins an already trimmed subject and body: the subject, a blank line and
/// the body, or the body alone.
pub fn assemble_message(subject: Option<String>, body: String) -> (r: String)
    ensures
        r@ == assembled(
            match subject {
                Some(s) => Some(s@),
                None => None,
            },
            body@,
        ),
{
    match subject {
        Some(s) => {
            let mut r = s;
            let sep = "\n\n";
            proof {
                reveal_strlit("\n\n");
            }
            r.append(sep);
            r.append(body.as_str());
            assert(sep@ =~= subject_separator());
            r
        },
        None => body,
    }
}

/// Builds the message that is sent verbatim to every destination: the trimmed
/// subject, a blank line and the trimmed body, or the trimmed body alone.
pub fn compose_message(subject: Option<&str>, body: &str) -> (r: String)
    ensures
        r@ == composed(
            match subject {
                Some(s) => Some(s@),
                None => None,
            },
            body@,
        ),
{
    let text = trim(body);
    let heading = match subject {
        Some(s) => Some(trim(s)),
        None => None,
    };
    assemble_message(heading, text)
}

} // verus!
