//! Names of recorded-scenario fixture files.
//!
//! A user-supplied fixture name is trimmed of surrounding white space, may
//! carry an optional `.json` suffix, and must otherwise consist only of ASCII
//! letters, digits, `-` and `_`, so that the resulting file always lies
//! directly inside the fixture directory.

use vstd::prelude::*;

verus! {

/// Directory, relative to the working directory, that holds the fixtures.
pub const SCENARIO_DIRECTORY: &'static str = "scenarios";

/// Unicode `White_Space`: the characters `char::is_whitespace` accepts.
pub open spec fn is_white_space(c: char) -> bool {
    let u = c as u32;
    ||| 0x09 <= u <= 0x0D
    ||| u == 0x20
    ||| u == 0x85
    ||| u == 0xA0
    ||| u == 0x1680
    ||| 0x2000 <= u <= 0x200A
    ||| u == 0x2028
    ||| u == 0x2029
    ||| u == 0x202F
    ||| u == 0x205F
    ||| u == 0x3000
}

/// Index of the first character at or after `i` that is not white space.
pub open spec fn first_kept(s: Seq<char>, i: int) -> int
    decreases s.len() - i,
{
    if i >= s.len() || !is_white_space(s[i]) {
        i
    } else {
        first_kept(s, i + 1)
    }
}

/// End of `s[..j]` once trailing white space is removed.
pub open spec fn kept_end(s: Seq<char>, j: int) -> int
    decreases j,
{
    if j <= 0 || !is_white_space(s[j - 1]) {
        j
    } else {
        kept_end(s, j - 1)
    }
}

/// `s` without leading and trailing white space.
pub open spec fn trim(s: Seq<char>) -> Seq<char> {
    let start = s.subrange(first_kept(s, 0), s.len() as int);
    start.subrange(0, kept_end(start, start.len() as int))
}

pub open spec fn json_suffix() -> Seq<char> {
    seq!['.', 'j', 's', 'o', 'n']
}

/// `s` without one trailing `.json`, if it has one.
pub open spec fn strip_json_suffix(s: Seq<char>) -> Seq<char> {
    if s.len() >= 5 && s.subrange(s.len() - 5, s.len() as int) == json_suffix() {
        s.subrange(0, s.len() - 5)
    } else {
        s
    }
}

/// ASCII letter, ASCII digit, `-` or `_`.
pub open spec fn is_fixture_char(c: char) -> bool {
    let u = c as u32;
    ||| 0x30 <= u <= 0x39
    ||| 0x41 <= u <= 0x5A
    ||| 0x61 <= u <= 0x7A
    ||| c == '-'
    ||| c == '_'
}

pub open spec fn is_valid_stem(stem: Seq<char>) -> bool {
    stem.len() > 0 && forall|i: int| 0 <= i < stem.len() ==> is_fixture_char(#[trigger] stem[i])
}

/// The file stem that a fixture name designates.
pub open spec fn fixture_stem(name: Seq<char>) -> Seq<char> {
    strip_json_suffix(trim(name))
}

/// Why a fixture name was refused.
#[derive(Clone, Copy, Debug, PartialEq, Eq, Structural)]
pub enum FixtureNameError {
    /// Empty, or containing a character other than an ASCII letter or digit,
    /// `-` or `_`.
    InvalidName,
}

impl FixtureNameError {
    /// The message shown to the user.
    pub fn message(&self) -> (text: &'static str)
        ensures
            text@ == "fixture name must contain only ASCII letters, numbers, '-' or '_'"@,
    {
        "fixture name must contain only ASCII letters, numbers, '-' or '_'"
    }
}

fn is_white_space_char(c: char) -> (white: bool)
    ensures
        white == is_white_space(c),
{
    let u = c as u32;
    (0x09 <= u && u <= 0x0D) || u == 0x20 || u == 0x85 || u == 0xA0 || u == 0x1680 || (0x2000
        <= u && u <= 0x200A) || u == 0x2028 || u == 0x2029 || u == 0x202F || u == 0x205F || u
        == 0x3000
}

fn is_fixture_character(c: char) -> (allowed: bool)
    ensures
        allowed == is_fixture_char(c),
{
    let u = c as u32;
    (0x30 <= u && u <= 0x39) || (0x41 <= u && u <= 0x5A) || (0x61 <= u && u <= 0x7A) || c == '-'
        || c == '_'
}

fn trim_white_space(s: &str) -> (t: &str)
    ensures
        t@ == trim(s@),
{
    let n = s.unicode_len();
    let mut a: usize = 0;
    while a < n && is_white_space_char(s.get_char(a))
        invariant
            n == s@.len(),
            a <= n,
            first_kept(s@, 0) == first_kept(s@, a as int),
        decreases n - a,
    {
        a = a + 1;
    }
    let start = s.substring_char(a, n);
    let m = start.unicode_len();
    let mut b: usize = m;
    while b > 0 && is_white_space_char(start.get_char(b - 1))
        invariant
            m == start@.len(),
            b <= m,
            kept_end(start@, m as int) == kept_end(start@, b as int),
        decreases b,
    {
        b = b - 1;
    }
    start.substring_char(0, b)
}

fn ends_with_json(s: &str) -> (ends: bool)
    ensures
        ends == (s@.len() >= 5 && s@.subrange(s@.len() - 5, s@.len() as int) == json_suffix()),
{
    let n = s.unicode_len();
    if n < 5 {
        return false;
    }
    let ends = s.get_char(n - 5) == '.' && s.get_char(n - 4) == 'j' && s.get_char(n - 3) == 's'
        && s.get_char(n - 2) == 'o' && s.get_char(n - 1) == 'n';
    if ends {
        assert(s@.subrange(n - 5, n as int) =~= json_suffix());
    } else {
        assert(s@.subrange(n - 5, n as int) != json_suffix()) by {
            if s@.subrange(n - 5, n as int) == json_suffix() {
                assert(s@.subrange(n - 5, n as int)[0] == s@[n - 5]);
            }
        }
    }
    ends
}

/// Relative path of the fixture file that `name` designates: the trimmed
/// name, without an optional `.json` suffix, inside `SCENARIO_DIRECTORY`.
pub fn scenario_path(name: &str) -> (path: Result<String, FixtureNameError>)
    ensures
        path matches Ok(p) ==> is_valid_stem(fixture_stem(name@)) && p@ == "scenarios/"@ + fixture_stem(
            name@,
        ) + ".json"@,
        path matches Err(e) ==> !is_valid_stem(fixture_stem(name@)) && e == FixtureNameError::InvalidName,
{
    let trimmed = trim_white_space(name);
    let stem = if ends_with_json(trimmed) {
        trimmed.substring_char(0, trimmed.unicode_len() - 5)
    } else {
        trimmed
    };
    assert(stem@ == fixture_stem(name@));
    let n = stem.unicode_len();
    if n == 0 {
        return Err(FixtureNameError::InvalidName);
    }
    let mut i: usize = 0;
    while i < n
        invariant
            n == stem@.len(),
            stem@ == fixture_stem(name@),
            i <= n,
            forall|j: int| 0 <= j < i ==> is_fixture_char(#[trigger] stem@[j]),
        decreases n - i,
    {
        if !is_fixture_character(stem.get_char(i)) {
            assert(!is_fixture_char(stem@[i as int]));
            return Err(FixtureNameError::InvalidName);
        }
        i = i + 1;
    }
    let mut path = String::from_str("scenarios/");
    path.append(stem);
    path.append(".json");
    Ok(path)
}

/// An accepted fixture always names a file directly inside the fixture
/// directory: the path's only separator follows the directory name, and its
/// only `.` starts the `.json` extension, so it has no `..` component.
pub proof fn lemma_accepted_path_stays_in_directory(name: Seq<char>)
    requires
        is_valid_stem(fixture_stem(name)),
    ensures
        ({
            let path = "scenarios/"@ + fixture_stem(name) + ".json"@;
            &&& path.len() == fixture_stem(name).len() + 15
            &&& path.subrange(0, 10) == "scenarios/"@
            &&& forall|i: int| 0 <= i < path.len() && path[i] == '/' ==> i == 9
            &&& forall|i: int| 0 <= i < path.len() && path[i] == '.' ==> i == path.len() - 5
        }),
{
    reveal_strlit("scenarios/");
    reveal_strlit(".json");
    let stem = fixture_stem(name);
    let path = "scenarios/"@ + stem + ".json"@;
    assert(path.subrange(0, 10) =~= "scenarios/"@);
    assert forall|i: int| 0 <= i < path.len() && (path[i] == '/' || path[i] == '.') implies (path[i] == '/'
        && i == 9) || (path[i] == '.' && i == path.len() - 5) by {
        if 10 <= i < 10 + stem.len() {
            assert(path[i] == stem[i - 10]);
            assert(is_fixture_char(stem[i - 10]));
        }
    }
}

proof fn lemma_valid_stem_has_no_white_space(stem: Seq<char>)
    requires
        is_valid_stem(stem),
    ensures
        forall|i: int| 0 <= i < stem.len() ==> !is_white_space(#[trigger] stem[i]),
{
    assert forall|i: int| 0 <= i < stem.len() implies !is_white_space(#[trigger] stem[i]) by {
        assert(is_fixture_char(stem[i]));
    }
}

/// The `.json` extension is optional: a valid stem and the same stem with
/// `.json` appended designate the same fixture file.
pub proof fn lemma_json_suffix_is_optional(stem: Seq<char>)
    requires
        is_valid_stem(stem),
    ensures
        fixture_stem(stem) == stem,
        fixture_stem(stem + ".json"@) == stem,
{
    reveal_strlit(".json");
    lemma_valid_stem_has_no_white_space(stem);
    assert(".json"@ =~= json_suffix());
    // The bare stem.
    assert(first_kept(stem, 0) == 0);
    assert(stem.subrange(0, stem.len() as int) =~= stem);
    assert(kept_end(stem, stem.len() as int) == stem.len());
    assert(trim(stem) == stem);
    if stem.len() >= 5 && stem.subrange(stem.len() - 5, stem.len() as int) == json_suffix() {
        assert(stem.subrange(stem.len() - 5, stem.len() as int)[0] == stem[stem.len() - 5]);
        assert(is_fixture_char(stem[stem.len() - 5]));
    }
    // The stem with the extension.
    let full = stem + json_suffix();
    assert(full[0] == stem[0]);
    assert(first_kept(full, 0) == 0);
    assert(full.subrange(0, full.len() as int) =~= full);
    assert(full[full.len() - 1] == 'n');
    assert(kept_end(full, full.len() as int) == full.len());
    assert(trim(full) == full);
    assert(full.subrange(full.len() - 5, full.len() as int) =~= json_suffix());
    assert(full.subrange(0, full.len() - 5) =~= stem);
}

/// An accepted fixture stem is pure ASCII: every character is a decimal
/// digit, an ASCII upper- or lower-case letter, `-` or `_`. Any name whose
/// stem has another character, such as a non-ASCII letter, is refused.
pub proof fn lemma_accepted_stems_are_ascii(name: Seq<char>)
    requires
        is_valid_stem(fixture_stem(name)),
    ensures
        forall|i: int|
            0 <= i < fixture_stem(name).len() ==> {
                let c = #[trigger] fixture_stem(name)[i];
                &&& (c as u32) < 128
                &&& (48 <= c as u32 <= 57) || (65 <= c as u32 <= 90) || (97 <= c as u32 <= 122) || c == '-'
                    || c == '_'
            },
{
    let stem = fixture_stem(name);
    assert forall|i: int| 0 <= i < stem.len() implies {
        let c = #[trigger] stem[i];
        &&& (c as u32) < 128
        &&& (48 <= c as u32 <= 57) || (65 <= c as u32 <= 90) || (97 <= c as u32 <= 122) || c == '-'
            || c == '_'
    } by {
        assert(is_fixture_char(stem[i]));
    }
}

} // verus!
