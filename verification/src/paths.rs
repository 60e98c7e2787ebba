//! Slash-separated paths: the last segment of a path, separator
//! normalisation, trailing-slash trimming, and joining paths held as bytes.

use vstd::prelude::*;
use vstd::string::*;

verus! {

/// Index where the last `/`-separated segment of `s` starts: one past the
/// last `/`, or 0 when `s` holds none.
pub open spec fn segment_start(s: Seq<char>) -> nat
    decreases s.len(),
{
    if s.len() == 0 {
        0
    } else if s.last() == '/' {
        s.len()
    } else {
        segment_start(s.drop_last())
    }
}

/// What follows the last `/` of `s` (all of `s` when it holds no `/`).
pub open spec fn last_segment(s: Seq<char>) -> Seq<char> {
    s.skip(segment_start(s) as int)
}

pub open spec fn has_no_slash(s: Seq<char>) -> bool {
    forall|i: int| 0 <= i < s.len() ==> s[i] != '/'
}

proof fn lemma_segment_start_bounds(s: Seq<char>)
    ensures
        segment_start(s) <= s.len(),
        segment_start(s) > 0 ==> s[segment_start(s) - 1] == '/',
        forall|i: int| segment_start(s) <= i < s.len() ==> s[i] != '/',
    decreases s.len(),
{
    if s.len() > 0 && s.last() != '/' {
        lemma_segment_start_bounds(s.drop_last());
        assert forall|i: int| segment_start(s) <= i < s.len() implies s[i] != '/' by {
            if i < s.len() - 1 {
                assert(s.drop_last()[i] == s[i]);
            }
        }
    }
}

/// The last segment holds no `/`, and the path is what comes before it
/// (empty, or ending in `/`) followed by it; a path with no `/` is its own
/// last segment.
pub proof fn lemma_last_segment(s: Seq<char>)
    ensures
        has_no_slash(last_segment(s)),
        s == s.take(segment_start(s) as int) + last_segment(s),
        segment_start(s) == 0 || s[segment_start(s) - 1] == '/',
        has_no_slash(s) ==> last_segment(s) == s,
    decreases s.len(),
{
    lemma_segment_start_bounds(s);
    assert(s == s.take(segment_start(s) as int) + last_segment(s));
    if has_no_slash(s) {
        lemma_no_slash_start_zero(s);
        assert(s.skip(0) == s);
    }
}

proof fn lemma_no_slash_start_zero(s: Seq<char>)
    requires
        has_no_slash(s),
    ensures
        segment_start(s) == 0,
    decreases s.len(),
{
    if s.len() > 0 {
        assert(s.last() == s[s.len() - 1]);
        lemma_no_slash_start_zero(s.drop_last());
    }
}

/// The file name of a `/`-separated path: the text after its last `/`.
pub fn file_name_of(path: &str) -> (name: String)
    ensures
        name@ == last_segment(path@),
{
    let n = path.unicode_len();
    let mut start: usize = 0;
    let mut i: usize = 0;
    while i < n
        invariant
            n == path@.len(),
            0 <= start <= i <= n,
            start == segment_start(path@.take(i as int)),
        decreases n - i,
    {
        let c = path.get_char(i);
        proof {
            assert(path@.take(i + 1).drop_last() == path@.take(i as int));
            assert(path@.take(i + 1).last() == c);
        }
        if c == '/' {
            start = i + 1;
        }
        i = i + 1;
    }
    proof {
        assert(path@.take(n as int) == path@);
    }
    path.substring_char(start, n).to_owned()
}

/// Replaces every `\` by `/`.
pub open spec fn with_forward_slashes(s: Seq<char>) -> Seq<char> {
    Seq::new(s.len(), |i: int| if s[i] == '\\' { '/' } else { s[i] })
}

/// Normalised text holds no `\`, has the same length, keeps every other
/// character, and normalising twice changes nothing more.
pub proof fn lemma_forward_slashes(s: Seq<char>)
    ensures
        with_forward_slashes(s).len() == s.len(),
        forall|i: int| 0 <= i < s.len() ==> with_forward_slashes(s)[i] != '\\',
        forall|i: int| 0 <= i < s.len() && s[i] != '\\' ==> with_forward_slashes(s)[i] == s[i],
        with_forward_slashes(with_forward_slashes(s)) == with_forward_slashes(s),
{
    assert(with_forward_slashes(with_forward_slashes(s)) =~= with_forward_slashes(s));
}

/// `path` with each `\` replaced by `/`.
pub fn forward_slashes(path: &str) -> (out: String)
    ensures
        out@ == with_forward_slashes(path@),
{
    let n = path.unicode_len();
    let mut out = String::new();
    let mut i: usize = 0;
    while i < n
        invariant
            n == path@.len(),
            i <= n,
            out@ == with_forward_slashes(path@).take(i as int),
        decreases n - i,
    {
        let c = path.get_char(i);
        if c == '\\' {
            proof {
                reveal_strlit("/");
            }
            out.append("/");
        } else {
            out.append(path.substring_char(i, i + 1));
        }
        proof {
            assert(with_forward_slashes(path@).take(i + 1) =~= with_forward_slashes(path@).take(
                i as int,
            ).push(with_forward_slashes(path@)[i as int]));
        }
        i = i + 1;
    }
    proof {
        assert(with_forward_slashes(path@).take(n as int) =~= with_forward_slashes(path@));
    }
    out
}

/// `s` without the `/` characters at its end.
pub open spec fn trim_end_slashes(s: Seq<char>) -> Seq<char>
    decreases s.len(),
{
    if s.len() > 0 && s.last() == '/' {
        trim_end_slashes(s.drop_last())
    } else {
        s
    }
}

/// Trimming leaves a prefix that does not end in `/`, drops only `/`
/// characters, and trimming twice changes nothing more.
pub proof fn lemma_trim_end_slashes(s: Seq<char>)
    ensures
        trim_end_slashes(s).len() <= s.len(),
        trim_end_slashes(s) == s.take(trim_end_slashes(s).len() as int),
        forall|i: int| trim_end_slashes(s).len() <= i < s.len() ==> s[i] == '/',
        trim_end_slashes(s).len() == 0 || trim_end_slashes(s).last() != '/',
        trim_end_slashes(trim_end_slashes(s)) == trim_end_slashes(s),
    decreases s.len(),
{
    if s.len() > 0 && s.last() == '/' {
        lemma_trim_end_slashes(s.drop_last());
        assert forall|i: int| trim_end_slashes(s).len() <= i < s.len() implies s[i] == '/' by {
            if i < s.len() - 1 {
                assert(s.drop_last()[i] == s[i]);
            }
        }
        assert(trim_end_slashes(s) == s.drop_last().take(trim_end_slashes(s).len() as int));
        assert(s.drop_last().take(trim_end_slashes(s).len() as int) =~= s.take(
            trim_end_slashes(s).len() as int,
        ));
    } else {
        assert(s.take(s.len() as int) =~= s);
    }
}

/// `s` with every trailing `/` removed.
pub fn trim_trailing_slashes(s: &str) -> (out: String)
    ensures
        out@ == trim_end_slashes(s@),
{
    let n = s.unicode_len();
    let mut j: usize = n;
    proof {
        assert(s@.take(n as int) =~= s@);
    }
    while j > 0 && s.get_char(j - 1) == '/'
        invariant
            n == s@.len(),
            j <= n,
            trim_end_slashes(s@.take(j as int)) == trim_end_slashes(s@),
        decreases j,
    {
        proof {
            assert(s@.take(j as int).drop_last() =~= s@.take(j - 1));
        }
        j = j - 1;
    }
    proof {
        assert(s@.take(n as int) =~= s@);
        if j > 0 {
            assert(s@.take(j as int).last() == s@[j - 1]);
        }
        assert(s@.take(j as int) =~= s@.subrange(0, j as int));
    }
    s.substring_char(0, j).to_owned()
}

/// The byte `/`.
pub open spec fn slash_byte() -> u8 {
    47u8
}

/// `base` extended by `part` as a path of raw bytes: an absolute `part` replaces `base`; otherwise a `/` joins them
/// unless `base` is empty or already ends with one.
pub open spec fn joined_bytes(base: Seq<u8>, part: Seq<u8>) -> Seq<u8> {
    if part.len() > 0 && part[0] == slash_byte() {
        part
    } else if base.len() == 0 || base.last() == slash_byte() {
        base + part
    } else {
        base + seq![slash_byte()] + part
    }
}

/// A joined path ends with the part joined on; a relative part is joined
/// below the base, which the result starts with, and when a separator was
/// added, what lies between them is exactly that one `/`.
pub proof fn lemma_joined_bytes(base: Seq<u8>, part: Seq<u8>)
    ensures
        joined_bytes(base, part).len() >= part.len(),
        joined_bytes(base, part).skip(joined_bytes(base, part).len() - part.len()) == part,
        !(part.len() > 0 && part[0] == slash_byte()) ==> joined_bytes(base, part).take(
            base.len() as int,
        ) == base,
        !(part.len() > 0 && part[0] == slash_byte()) && base.len() > 0 && base.last()
            != slash_byte() ==> joined_bytes(base, part) == base + seq![slash_byte()] + part,
{
    let j = joined_bytes(base, part);
    assert(j.skip(j.len() - part.len()) =~= part);
    if !(part.len() > 0 && part[0] == slash_byte()) {
        assert(j.take(base.len() as int) =~= base);
    }
}

fn push_all(out: &mut Vec<u8>, bytes: &[u8])
    ensures
        final(out)@ == old(out)@ + bytes@,
{
    let n = bytes.len();
    let mut i: usize = 0;
    while i < n
        invariant
            n == bytes@.len(),
            i <= n,
            out@ == old(out)@ + bytes@.take(i as int),
        decreases n - i,
    {
        out.push(bytes[i]);
        proof {
            assert(bytes@.take(i + 1) =~= bytes@.take(i as int).push(bytes@[i as int]));
        }
        i = i + 1;
    }
    proof {
        assert(bytes@.take(n as int) =~= bytes@);
    }
}

/// `base` joined with `part` as paths of raw bytes.
pub fn join_path_bytes(base: &[u8], part: &[u8]) -> (out: Vec<u8>)
    ensures
        out@ == joined_bytes(base@, part@),
{
    let mut out: Vec<u8> = Vec::new();
    if part.len() > 0 && part[0] == 47u8 {
        push_all(&mut out, part);
        proof {
            assert(out@ =~= part@);
        }
        return out;
    }
    push_all(&mut out, base);
    if !(base.len() == 0 || base[base.len() - 1] == 47u8) {
        out.push(47u8);
    }
    push_all(&mut out, part);
    proof {
        if !(base@.len() == 0 || base@.last() == slash_byte()) {
            assert(out@ =~= base@ + seq![slash_byte()] + part@);
        } else {
            assert(out@ =~= base@ + part@);
        }
    }
    out
}

} // verus!
