use crate::text::push_char;
use vstd::prelude::*;
use vstd::string::StrSliceExecFns;
use vstd::string::StringExecFns;

verus! {

/// A character that may appear in a derived file name: an ASCII letter or
/// digit, or the separator '-'.
pub open spec fn is_name_char(c: char) -> bool {
    ||| ('a' <= c && c <= 'z')
    ||| ('A' <= c && c <= 'Z')
    ||| ('0' <= c && c <= '9')
    ||| c == '-'
}

/// A character that may appear in a random path suffix: an ASCII letter or
/// digit, drawn from a 62-symbol alphabet.
pub open spec fn is_suffix_char(c: char) -> bool {
    ||| ('a' <= c && c <= 'z')
    ||| ('A' <= c && c <= 'Z')
    ||| ('0' <= c && c <= '9')
}

/// A prompt truncated to its first 60 characters.
pub open spec fn truncated(p: Seq<char>) -> Seq<char> {
    if p.len() <= 60 {
        p
    } else {
        p.subrange(0, 60)
    }
}

/// A space becomes the separator; every other character is kept as is.
pub open spec fn map_separator(c: char) -> char {
    if c == ' ' {
        '-'
    } else {
        c
    }
}

/// The sanitized form of a name: spaces become separators, and every
/// character that is then neither alphanumeric nor the separator is dropped.
pub open spec fn sanitized(s: Seq<char>) -> Seq<char>
    decreases s.len(),
{
    if s.len() == 0 {
        Seq::empty()
    } else {
        let rest = sanitized(s.drop_last());
        let c = map_separator(s.last());
        if is_name_char(c) {
            rest.push(c)
        } else {
            rest
        }
    }
}

/// The file-name stem derived from a prompt: truncate first, then sanitize.
pub open spec fn name_spec(p: Seq<char>) -> Seq<char> {
    sanitized(truncated(p))
}

/// A valid random suffix: exactly 5 characters from the 62-symbol alphabet.
pub open spec fn valid_suffix(s: Seq<char>) -> bool {
    &&& s.len() == 5
    &&& forall|i: int| 0 <= i < s.len() ==> is_suffix_char(#[trigger] s[i])
}

/// The full output path composed from a name stem and a suffix.
pub open spec fn path_spec(name: Seq<char>, sfx: Seq<char>) -> Seq<char> {
    "./"@ + name + "-"@ + sfx + ".png"@
}

/// Truncate a prompt to at most 60 characters; the first step of deriving an
/// output file name from a prompt.
pub fn name_from_prompt(prompt: String) -> (name: String)
    ensures
        name@ == truncated(prompt@),
{
    let len = prompt.as_str().unicode_len();
    if len <= 60 {
        prompt
    } else {
        let cut = prompt.as_str().substring_char(0, 60);
        cut.to_owned()
    }
}

fn is_name_char_exec(c: char) -> (r: bool)
    ensures
        r == is_name_char(c),
{
    ('a' <= c && c <= 'z') || ('A' <= c && c <= 'Z') || ('0' <= c && c <= '9') || c == '-'
}

/// Sanitize a name: map spaces to '-', drop every other character that is
/// not ASCII alphanumeric.
pub fn sanitize_name(name: &str) -> (r: String)
    ensures
        r@ == sanitized(name@),
{
    let n = name.unicode_len();
    let mut out = String::new();
    let mut i: usize = 0;
    while i < n
        invariant
            i <= n,
            n == name@.len(),
            out@ == sanitized(name@.subrange(0, i as int)),
        decreases n - i,
    {
        let c = name.get_char(i);
        let m = if c == ' ' {
            '-'
        } else {
            c
        };
        if is_name_char_exec(m) {
            push_char(&mut out, m);
        }
        proof {
            let pre = name@.subrange(0, i as int);
            let cur = name@.subrange(0, i + 1 as int);
            assert(cur.drop_last() =~= pre);
            assert(cur.last() == name@[i as int]);
        }
        i = i + 1;
    }
    proof {
        assert(name@.subrange(0, n as int) =~= name@);
    }
    out
}

/// Derive the file-name stem for a prompt: truncate to 60 characters, then
/// sanitize, so that pathological input costs bounded work.
pub fn name_for(prompt: String) -> (r: String)
    ensures
        r@ == name_spec(prompt@),
{
    let t = name_from_prompt(prompt);
    sanitize_name(t.as_str())
}

/// Relies on rand's `DistString` impl for `Alphanumeric`: it appends exactly
/// `len` characters, each sampled from the 62-symbol set a-z, A-Z, 0-9.
#[verifier::external_body]
fn random_suffix() -> (s: String)
    ensures
        valid_suffix(s@),
{
    rand::distributions::DistString::sample_string(
        &rand::distributions::Alphanumeric,
        &mut rand::thread_rng(),
        5,
    )
}

/// Compose the output path `./<name>-<suffix>.png` with a fresh 5-character
/// random suffix.
pub fn unique_path(name: String) -> (r: String)
    ensures
        exists|sfx: Seq<char>| #[trigger] valid_suffix(sfx) && r@ == path_spec(name@, sfx),
{
    let sfx = random_suffix();
    let mut out = "./".to_owned();
    out.append(name.as_str());
    out.append("-");
    out.append(sfx.as_str());
    out.append(".png");
    proof {
        assert(valid_suffix(sfx@) && out@ == path_spec(name@, sfx@));
    }
    out
}

/// Every character of a sanitized name is alphanumeric or the separator, and
/// sanitizing never lengthens a name.
pub proof fn lemma_sanitized_safe(s: Seq<char>)
    ensures
        sanitized(s).len() <= s.len(),
        forall|i: int| 0 <= i < sanitized(s).len() ==> is_name_char(#[trigger] sanitized(s)[i]),
    decreases s.len(),
{
    if s.len() > 0 {
        lemma_sanitized_safe(s.drop_last());
    }
}

/// The derived name of any prompt is filesystem safe: at most 60 characters,
/// each alphanumeric or the separator; and it is a function of the prompt
/// alone, so equal prompts get equal names.
pub proof fn lemma_name_for_safe(p: Seq<char>)
    ensures
        name_spec(p).len() <= 60,
        forall|i: int| 0 <= i < name_spec(p).len() ==> is_name_char(#[trigger] name_spec(p)[i]),
{
    lemma_sanitized_safe(truncated(p));
}

/// Paths composed from the same name but different suffixes differ: a
/// collision of two output paths needs a collision of the two 5-character
/// random suffixes.
pub proof fn lemma_distinct_suffix_distinct_path(name: Seq<char>, s1: Seq<char>, s2: Seq<char>)
    requires
        valid_suffix(s1),
        valid_suffix(s2),
        s1 != s2,
    ensures
        path_spec(name, s1) != path_spec(name, s2),
{
    let p1 = path_spec(name, s1);
    let p2 = path_spec(name, s2);
    let off = "./"@.len() + name.len() + "-"@.len();
    if p1 == p2 {
        assert forall|i: int| 0 <= i < 5 implies s1[i] == s2[i] by {
            assert(p1[off + i] == s1[i]);
            assert(p2[off + i] == s2[i]);
        }
        assert(s1 =~= s2);
    }
}

} // verus!
