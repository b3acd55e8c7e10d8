use vstd::prelude::*;

verus! {

/// The ASCII digit for `d` (meaningful for `d < 10`).
pub open spec fn digit_char(d: nat) -> char {
    ((48 + d) as u8) as char
}

/// Decimal rendering of a natural number, most significant digit first,
/// without sign or leading zeros (as `Display` prints unsigned integers).
pub open spec fn decimal(n: nat) -> Seq<char>
    decreases n,
{
    if n < 10 {
        seq![digit_char(n)]
    } else {
        decimal(n / 10).push(digit_char(n % 10))
    }
}

/// `String::push`: appends one character.
#[verifier::external_body]
pub fn push_char(s: &mut String, c: char)
    ensures
        final(s)@ == old(s)@.push(c),
{
    s.push(c);
}

/// Renders `n` in decimal.
pub fn u64_to_decimal(n: u64) -> (s: String)
    ensures
        s@ == decimal(n as nat),
    decreases n,
{
    if n < 10 {
        let mut s = String::new();
        push_char(&mut s, ((48 + n) as u8) as char);
        s
    } else {
        let mut s = u64_to_decimal(n / 10);
        push_char(&mut s, ((48 + n % 10) as u8) as char);
        s
    }
}


/// Parts joined with `sep` between consecutive parts (as `[String]::join`).
pub open spec fn join(parts: Seq<Seq<char>>, sep: Seq<char>) -> Seq<char>
    decreases parts.len(),
{
    if parts.len() == 0 {
        Seq::empty()
    } else if parts.len() == 1 {
        parts[0]
    } else {
        join(parts.drop_last(), sep) + sep + parts.last()
    }
}

/// The character views of a list of strings.
pub open spec fn views(v: Seq<String>) -> Seq<Seq<char>> {
    v.map_values(|s: String| s@)
}

/// Joins `parts` with `sep` between consecutive parts.
pub fn join_strings(parts: &Vec<String>, sep: &str) -> (res: String)
    ensures
        res@ == join(views(parts@), sep@),
{
    let mut res = String::new();
    let ghost all = views(parts@);
    let mut i: usize = 0;
    while i < parts.len()
        invariant
            i <= parts.len(),
            all == views(parts@),
            res@ == join(all.take(i as int), sep@),
        decreases parts.len() - i,
    {
        if i != 0 {
            res.append(sep);
        }
        res.append(parts[i].as_str());
        assert(all.take(i + 1).drop_last() =~= all.take(i as int));
        i = i + 1;
    }
    assert(all.take(parts.len() as int) =~= all);
    res
}

/// ASCII lower-casing of one character; other characters are unchanged.
pub open spec fn ascii_lower(c: char) -> char {
    if 'A' <= c <= 'Z' {
        ((c as u32) + 32) as char
    } else {
        c
    }
}

/// `s` with every ASCII upper-case letter lower-cased.
pub open spec fn ascii_lowercase(s: Seq<char>) -> Seq<char> {
    s.map_values(|c: char| ascii_lower(c))
}

/// `str::to_ascii_lowercase`: per its documentation, maps 'A'..='Z' to
/// 'a'..='z' and leaves every other character unchanged.
#[verifier::external_body]
pub fn to_ascii_lowercase(s: &str) -> (res: String)
    ensures
        res@ == ascii_lowercase(s@),
{
    s.to_ascii_lowercase()
}

/// `prefix` is an initial segment of `s`.
pub open spec fn has_prefix(s: Seq<char>, prefix: Seq<char>) -> bool {
    prefix.len() <= s.len() && s.subrange(0, prefix.len() as int) == prefix
}

/// `str::starts_with` with a string pattern: true iff `prefix` is an initial
/// segment of `s`.
#[verifier::external_body]
pub fn starts_with(s: &str, prefix: &str) -> (res: bool)
    ensures
        res == has_prefix(s@, prefix@),
{
    s.starts_with(prefix)
}

/// `part` occurs in `s` as a contiguous segment.
pub open spec fn has_infix(s: Seq<char>, part: Seq<char>) -> bool {
    exists|i: int| 0 <= i && i + part.len() <= s.len() && #[trigger] s.subrange(i, i + part.len()) == part
}

/// `str::contains` with a string pattern: true iff `part` occurs in `s`
/// as a contiguous segment.
#[verifier::external_body]
pub fn contains_str(s: &str, part: &str) -> (res: bool)
    ensures
        res == has_infix(s@, part@),
{
    s.contains(part)
}

/// The Unicode `White_Space` property, which `char::is_whitespace` and
/// `str::trim` are documented to follow.
pub open spec fn is_white_space(c: char) -> bool {
    let u: u32 = c as u32;
    ||| 0x09 <= u <= 0x0D
    ||| u == 0x20
    ||| u == 0x85
    ||| u == 0xA0
    ||| u == 0x1680
    ||| 0x2000 <= u <= 0x200A
    ||| u == 0x2028
    ||| u == 0x2029
    ||| u == 0x202F
    ||| u == 0x205F
    ||| u == 0x3000
}

/// `s` without its leading white space.
pub open spec fn trim_start(s: Seq<char>) -> Seq<char>
    decreases s.len(),
{
    if s.len() > 0 && is_white_space(s[0]) {
        trim_start(s.drop_first())
    } else {
        s
    }
}

/// `s` without its trailing white space.
pub open spec fn trim_end(s: Seq<char>) -> Seq<char>
    decreases s.len(),
{
    if s.len() > 0 && is_white_space(s.last()) {
        trim_end(s.drop_last())
    } else {
        s
    }
}

/// `s` without leading and trailing white space.
pub open spec fn trim(s: Seq<char>) -> Seq<char> {
    trim_end(trim_start(s))
}

/// `str::trim`: the slice of `s` without leading and trailing characters
/// that have the Unicode `White_Space` property.
#[verifier::external_body]
pub fn trim_str(s: &str) -> (res: &str)
    ensures
        res@ == trim(s@),
{
    s.trim()
}


/// `str`'s `==`: true iff the two strings hold the same characters.
#[verifier::external_body]
pub fn str_eq(a: &str, b: &str) -> (res: bool)
    ensures
        res == (a@ == b@),
{
    a == b
}

/// A path that `std::path::Path` reads the same way on every platform: '/'
/// is its only separator (it has no '\\'), it has no ':' (so no drive
/// prefix), and it does not start with "//" (a network prefix on Windows).
pub open spec fn is_portable_path(p: Seq<char>) -> bool {
    &&& forall|i: int| 0 <= i < p.len() ==> p[i] != '\\' && p[i] != ':'
    &&& !(p.len() >= 2 && p[0] == '/' && p[1] == '/')
}

/// The last component of a '/'-separated path that is neither empty nor
/// ".", as `Path::components` reads it: repeated separators and "."
/// components are dropped. Nothing when every component is empty or ".".
pub open spec fn last_kept_component(p: Seq<char>) -> Option<Seq<char>>
    decreases p.len(),
{
    let k = last_index_of(p, '/');
    let c = p.skip(k + 1);
    if c.len() > 0 && c != seq!['.'] {
        Some(c)
    } else if k < 0 {
        None
    } else {
        proof {
            lemma_last_index_of_bounds(p, '/');
        }
        last_kept_component(p.take(k))
    }
}

/// The file name of a portable path, as `Path::file_name` documents it: its
/// last kept component, unless that is ".." or there is none.
pub open spec fn portable_file_name(p: Seq<char>) -> Option<Seq<char>> {
    match last_kept_component(p) {
        Some(c) => if c == seq!['.', '.'] {
            None
        } else {
            Some(c)
        },
        None => None,
    }
}

/// The file stem of a portable path (`Path::file_stem`): the stem of its
/// file name.
pub open spec fn portable_file_stem(p: Seq<char>) -> Option<Seq<char>> {
    match portable_file_name(p) {
        Some(n) => Some(file_name_stem(n)),
        None => None,
    }
}

/// The extension of a portable path (`Path::extension`): the extension of
/// its file name.
pub open spec fn portable_extension(p: Seq<char>) -> Option<Seq<char>> {
    match portable_file_name(p) {
        Some(n) => file_name_extension(n),
        None => None,
    }
}

/// `last_index_of` is -1 or an index of `s`.
pub proof fn lemma_last_index_of_bounds(s: Seq<char>, c: char)
    ensures
        -1 <= last_index_of(s, c) < s.len(),
    decreases s.len(),
{
    if s.len() > 0 && s.last() != c {
        lemma_last_index_of_bounds(s.drop_last(), c);
    }
}

/// The index of the last occurrence of `c` in `s`, or -1 when there is none.
pub open spec fn last_index_of(s: Seq<char>, c: char) -> int
    decreases s.len(),
{
    if s.len() == 0 {
        -1
    } else if s.last() == c {
        s.len() - 1
    } else {
        last_index_of(s.drop_last(), c)
    }
}

/// The stem of a file name, as `Path::file_stem` documents it: the whole
/// name when it has no '.' or only a leading one, otherwise the part before
/// the final '.'.
pub open spec fn file_name_stem(name: Seq<char>) -> Seq<char> {
    let k = last_index_of(name, '.');
    if k <= 0 {
        name
    } else {
        name.take(k)
    }
}

/// The extension of a file name, as `Path::extension` documents it:
/// nothing when the name has no '.' or only a leading one, otherwise the part
/// after the final '.'.
pub open spec fn file_name_extension(name: Seq<char>) -> Option<Seq<char>> {
    let k = last_index_of(name, '.');
    if k <= 0 {
        None
    } else {
        Some(name.skip(k + 1))
    }
}

} // verus!
