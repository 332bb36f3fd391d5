use vstd::prelude::*;

verus! {

/// What the user typed at each enrollment prompt, line ends removed.
#[derive(Debug, Clone)]
pub struct Answers {
    pub homeserver: String,
    pub user: String,
    pub password: String,
    pub device_name: String,
    pub display_name: String,
}

/// The login that enrollment asks of the homeserver.
#[derive(Debug, Clone)]
pub struct Enrollment {
    /// The homeserver URL, with a scheme.
    pub homeserver: String,
    pub user: String,
    pub password: String,
    /// Asked for as the device ID.
    pub device_name: String,
    /// Asked for as the device's display name.
    pub display_name: String,
}

pub open spec fn default_homeserver() -> Seq<char> {
    "matrix.org"@
}

pub open spec fn https_scheme() -> Seq<char> {
    "https://"@
}

pub open spec fn http_scheme() -> Seq<char> {
    "http://"@
}

pub open spec fn starts_with(s: Seq<char>, prefix: Seq<char>) -> bool {
    prefix.len() <= s.len() && s.subrange(0, prefix.len() as int) == prefix
}

pub open spec fn has_scheme(s: Seq<char>) -> bool {
    starts_with(s, https_scheme()) || starts_with(s, http_scheme())
}

/// A homeserver address with `https://` put in front where it names no scheme.
pub open spec fn with_scheme(s: Seq<char>) -> Seq<char> {
    if has_scheme(s) {
        s
    } else {
        https_scheme() + s
    }
}

/// An empty answer selects the default.
pub open spec fn or_default(answer: Seq<char>, default: Seq<char>) -> Seq<char> {
    if answer.len() == 0 {
        default
    } else {
        answer
    }
}

pub open spec fn display_default(os_user: Seq<char>, device_name: Seq<char>) -> Seq<char> {
    os_user + seq!['@'] + device_name
}

pub open spec fn host_default(hostname: Option<Seq<char>>) -> Seq<char> {
    match hostname {
        Some(h) => h,
        None => Seq::empty(),
    }
}

/// `line` without one final line feed.
pub open spec fn without_line_end(line: Seq<char>) -> Seq<char> {
    if line.len() > 0 && line.last() == '\n' {
        line.drop_last()
    } else {
        line
    }
}

/// Whether `s` begins with `prefix`.
pub fn text_starts_with(s: &str, prefix: &str) -> (r: bool)
    ensures
        r == starts_with(s@, prefix@),
{
    let n = prefix.unicode_len();
    if n > s.unicode_len() {
        return false;
    }
    let mut i: usize = 0;
    while i < n
        invariant
            n == prefix@.len(),
            n <= s@.len(),
            i <= n,
            forall|j: int| 0 <= j < i ==> s@[j] == prefix@[j],
        decreases n - i,
    {
        if s.get_char(i) != prefix.get_char(i) {
            assert(s@.subrange(0, n as int)[i as int] != prefix@[i as int]);
            return false;
        }
        i = i + 1;
    }
    assert(s@.subrange(0, n as int) =~= prefix@);
    true
}

/// The text of a line read from the terminal, without its line feed.
pub fn strip_line_end(line: &str) -> (r: String)
    ensures
        r@ == without_line_end(line@),
{
    let n = line.unicode_len();
    if n > 0 && line.get_char(n - 1) == '\n' {
        String::from_str(line.substring_char(0, n - 1))
    } else {
        String::from_str(line)
    }
}

/// The answer, or the default where the answer is empty.
pub fn answer_or_default(answer: String, default: String) -> (r: String)
    ensures
        r@ == or_default(answer@, default@),
{
    if answer.as_str().unicode_len() == 0 {
        default
    } else {
        answer
    }
}

/// The text of a prompt that offers a default: `label (default: value): `.
pub fn prompt_with_default(label: &str, default: &str) -> (r: String)
    ensures
        r@ == label@ + " (default: "@ + default@ + "): "@,
{
    let mut r = String::from_str(label);
    r.append(" (default: ");
    r.append(default);
    r.append("): ");
    r
}

/// Puts `https://` in front of an address that names no scheme.
pub fn normalize_homeserver(address: String) -> (r: String)
    ensures
        r@ == with_scheme(address@),
{
    let https = "https://";
    let http = "http://";
    if text_starts_with(address.as_str(), https) || text_starts_with(address.as_str(), http) {
        address
    } else {
        let mut r = String::from_str(https);
        r.append(address.as_str());
        r
    }
}

/// The homeserver to log in to for the answer given: `matrix.org` where it is
/// empty, with a scheme in either case.
pub fn resolve_homeserver(answer: String) -> (r: String)
    ensures
        r@ == with_scheme(or_default(answer@, default_homeserver())),
{
    let chosen = answer_or_default(answer, String::from_str("matrix.org"));
    normalize_homeserver(chosen)
}

/// The device name offered by default: the host name, or nothing where the
/// host name could not be had.
pub fn default_device_name(hostname: Option<String>) -> (r: String)
    ensures
        r@ == host_default(match hostname {
            Some(h) => Some(h@),
            None => None,
        }),
{
    match hostname {
        Some(h) => h,
        None => String::new(),
    }
}

/// The display name offered by default: `user@device`.
pub fn default_display_name(os_user: &str, device_name: &str) -> (r: String)
    ensures
        r@ == display_default(os_user@, device_name@),
{
    let mut r = String::from_str(os_user);
    let at = "@";
    proof {
        reveal_strlit("@");
    }
    r.append(at);
    r.append(device_name);
    assert(at@ =~= seq!['@']);
    r
}

impl Enrollment {
    /// The login that the answers ask for, with each empty answer replaced by
    /// its default.
    pub fn from_answers(answers: Answers, hostname: Option<String>, os_user: &str) -> (r: Enrollment)
        ensures
            r.homeserver@ == with_scheme(or_default(answers.homeserver@, default_homeserver())),
            r.user@ == answers.user@,
            r.password@ == answers.password@,
            r.device_name@ == or_default(
                answers.device_name@,
                host_default(
                    match hostname {
                        Some(h) => Some(h@),
                        None => None,
                    },
                ),
            ),
            r.display_name@ == or_default(
                answers.display_name@,
                display_default(os_user@, r.device_name@),
            ),
    {
        let Answers { homeserver, user, password, device_name, display_name } = answers;
        let homeserver = resolve_homeserver(homeserver);
        let device_name = answer_or_default(device_name, default_device_name(hostname));
        let display_default = default_display_name(os_user, device_name.as_str());
        let display_name = answer_or_default(display_name, display_default);
        Enrollment { homeserver, user, password, device_name, display_name }
    }
}

/// Empty answers select the defaults: the homeserver `https://matrix.org`, the
/// host name as device name, and `user@host` as display name.
pub proof fn lemma_empty_answers_take_defaults(hostname: Seq<char>, os_user: Seq<char>)
    ensures
        with_scheme(or_default(Seq::empty(), default_homeserver())) == https_scheme()
            + default_homeserver(),
        or_default(Seq::empty(), host_default(Some(hostname))) == hostname,
        or_default(Seq::empty(), display_default(os_user, hostname)) == os_user + seq!['@']
            + hostname,
{
    reveal_strlit("matrix.org");
    reveal_strlit("https://");
    reveal_strlit("http://");
    let d = default_homeserver();
    assert(d.subrange(0, 8) != https_scheme()) by {
        assert(d.subrange(0, 8)[0] == 'm');
    }
    assert(d.subrange(0, 7) != http_scheme()) by {
        assert(d.subrange(0, 7)[0] == 'm');
    }
}

} // verus!
