//! Cache addressing: pure functions mapping a source URI to a cache
//! directory name, and a (directory, format) pair to a cache file path.
//!
//! The directory name is a reversible encoding of the URI (alphanumeric
//! characters kept, every other character written as `%` followed by six
//! hex digits of its code point), so distinct URIs always get distinct
//! directories.  A cache file is `<dir>/<format-ident>.<format-ext>`, so a
//! directory holds at most one file per format.

use vstd::prelude::*;
use crate::format::Format;
use crate::format::spec_parse_file_ext;
use crate::format::parse_file_ext;

verus! {

/// Characters the directory encoding keeps verbatim: ASCII alphanumerics.
pub open spec fn spec_safe_char(c: char) -> bool {
    let v = c as u32;
    (97 <= v && v <= 122) || (65 <= v && v <= 90) || (48 <= v && v <= 57)
}

/// The hex digit character for a value below 16.
pub open spec fn spec_hex_digit(v: int) -> char {
    if v == 0 { '0' } else if v == 1 { '1' } else if v == 2 { '2' }
    else if v == 3 { '3' } else if v == 4 { '4' } else if v == 5 { '5' }
    else if v == 6 { '6' } else if v == 7 { '7' } else if v == 8 { '8' }
    else if v == 9 { '9' } else if v == 10 { 'a' } else if v == 11 { 'b' }
    else if v == 12 { 'c' } else if v == 13 { 'd' } else if v == 14 { 'e' }
    else { 'f' }
}

/// Six hex digits of a code point, most significant first.
pub open spec fn spec_hex6(v: int) -> Seq<char> {
    seq![
        spec_hex_digit((v / 0x100000) % 16),
        spec_hex_digit((v / 0x10000) % 16),
        spec_hex_digit((v / 0x1000) % 16),
        spec_hex_digit((v / 0x100) % 16),
        spec_hex_digit((v / 0x10) % 16),
        spec_hex_digit(v % 16),
    ]
}

/// The encoding of one character of a URI.
pub open spec fn spec_encode_char(c: char) -> Seq<char> {
    if spec_safe_char(c) {
        seq![c]
    } else {
        seq!['%'] + spec_hex6(c as u32 as int)
    }
}

/// The encoding of a whole URI: the concatenation of its characters'
/// encodings.
pub open spec fn spec_encode(s: Seq<char>) -> Seq<char>
    decreases s.len(),
{
    if s.len() == 0 {
        Seq::empty()
    } else {
        spec_encode_char(s[0]) + spec_encode(s.skip(1))
    }
}

proof fn lemma_encode_push(s: Seq<char>, c: char)
    ensures
        spec_encode(s.push(c)) == spec_encode(s) + spec_encode_char(c),
    decreases s.len(),
{
    if s.len() == 0 {
        assert(s.push(c)[0] == c);
        assert(s.push(c).skip(1) =~= Seq::<char>::empty());
        assert(spec_encode(s.push(c).skip(1)) == Seq::<char>::empty());
        assert(spec_encode(s.push(c))
            == spec_encode_char(c) + Seq::<char>::empty());
        assert(spec_encode_char(c) + Seq::<char>::empty() =~= spec_encode_char(c));
        assert(spec_encode(s) == Seq::<char>::empty());
        assert(Seq::<char>::empty() + spec_encode_char(c) =~= spec_encode_char(c));
    } else {
        assert(s.push(c)[0] == s[0]);
        assert(s.push(c).skip(1) =~= s.skip(1).push(c));
        lemma_encode_push(s.skip(1), c);
        assert(spec_encode(s.push(c))
            == spec_encode_char(s[0]) + spec_encode(s.push(c).skip(1)));
        assert(spec_encode(s.push(c).skip(1)) == spec_encode(s.skip(1).push(c)));
        assert(spec_encode(s.push(c))
            == spec_encode_char(s[0]) + (spec_encode(s.skip(1)) + spec_encode_char(c)));
        assert(spec_encode(s) == spec_encode_char(s[0]) + spec_encode(s.skip(1)));
        assert(spec_encode_char(s[0]) + (spec_encode(s.skip(1)) + spec_encode_char(c))
            =~= (spec_encode_char(s[0]) + spec_encode(s.skip(1))) + spec_encode_char(c));
    }
}

/// The hex digit character for a value below 16, as a one-character string.
fn hex_digit_str(d: u32) -> (r: &'static str)
    requires
        d < 16,
    ensures
        r@ == seq![spec_hex_digit(d as int)],
{
    proof {
        reveal_strlit("0"); reveal_strlit("1"); reveal_strlit("2");
        reveal_strlit("3"); reveal_strlit("4"); reveal_strlit("5");
        reveal_strlit("6"); reveal_strlit("7"); reveal_strlit("8");
        reveal_strlit("9"); reveal_strlit("a"); reveal_strlit("b");
        reveal_strlit("c"); reveal_strlit("d"); reveal_strlit("e");
        reveal_strlit("f");
    }
    let r = if d == 0 { "0" } else if d == 1 { "1" } else if d == 2 { "2" }
    else if d == 3 { "3" } else if d == 4 { "4" } else if d == 5 { "5" }
    else if d == 6 { "6" } else if d == 7 { "7" } else if d == 8 { "8" }
    else if d == 9 { "9" } else if d == 10 { "a" } else if d == 11 { "b" }
    else if d == 12 { "c" } else if d == 13 { "d" } else if d == 14 { "e" }
    else { "f" };
    proof {
        assert(r@ =~= seq![spec_hex_digit(d as int)]);
    }
    r
}

/// Encodes a URI into a single filesystem-safe path component.
pub fn encode_uri(uri: &str) -> (r: String)
    ensures
        r@ == spec_encode(uri@),
{
    let len = uri.unicode_len();
    let mut out = String::new();
    let mut i: usize = 0;
    while i < len
        invariant
            len == uri@.len(),
            i <= len,
            out@ == spec_encode(uri@.subrange(0, i as int)),
        decreases len - i,
    {
        let c = uri.get_char(i);
        let v = c as u32;
        proof {
            lemma_encode_push(uri@.subrange(0, i as int), c);
            assert(uri@.subrange(0, i as int).push(c) =~= uri@.subrange(0, i + 1 as int));
        }
        if (97 <= v && v <= 122) || (65 <= v && v <= 90) || (48 <= v && v <= 57) {
            let piece = uri.substring_char(i, i + 1);
            proof {
                assert(piece@ =~= seq![c]);
            }
            out.append(piece);
        } else {
            proof {
                reveal_strlit("%");
            }
            out.append("%");
            out.append(hex_digit_str((v / 0x100000) % 16));
            out.append(hex_digit_str((v / 0x10000) % 16));
            out.append(hex_digit_str((v / 0x1000) % 16));
            out.append(hex_digit_str((v / 0x100) % 16));
            out.append(hex_digit_str((v / 0x10) % 16));
            out.append(hex_digit_str(v % 16));
            proof {
                assert("%"@ =~= seq!['%']);
                assert(out@ =~= spec_encode(uri@.subrange(0, i as int)) + spec_encode_char(c));
            }
        }
        i = i + 1;
    }
    proof {
        assert(uri@.subrange(0, len as int) =~= uri@);
    }
    out
}

/// The cache directory for a source URI under a cache root.
pub open spec fn spec_ont_dir(cache_root: Seq<char>, uri: Seq<char>) -> Seq<char> {
    cache_root + "/"@ + spec_encode(uri)
}

/// Maps a source URI to its cache directory path: the cache root, a path
/// separator, and the encoded URI.
pub fn ont_dir(cache_root: &str, uri: &str) -> (r: String)
    ensures
        r@ == spec_ont_dir(cache_root@, uri@),
{
    let mut out = cache_root.to_owned();
    out.append("/");
    let enc = encode_uri(uri);
    out.append(enc.as_str());
    out
}

/// The file name a format is cached under: `<ident>.<ext>`.
pub open spec fn spec_ont_file_name(format: Format) -> Seq<char> {
    format.spec_ident() + "."@ + format.spec_file_ext()
}

/// The file name a format is cached under inside a cache directory.
pub fn ont_file_name(format: Format) -> (r: String)
    ensures
        r@ == spec_ont_file_name(format),
{
    let mut out = format.ident().to_owned();
    out.append(".");
    out.append(format.file_ext());
    out
}

/// At most one cache file per format: two formats are cached under the
/// same file name only if they are the same format.
#[verifier::rlimit(100)]
#[verifier::spinoff_prover]
pub proof fn lemma_ont_file_name_injective(f1: Format, f2: Format)
    requires
        spec_ont_file_name(f1) == spec_ont_file_name(f2),
    ensures
        f1 == f2,
{
    reveal_strlit("binaryrdf"); reveal_strlit("csvw"); reveal_strlit("hdt");
    reveal_strlit("hextuples"); reveal_strlit("html"); reveal_strlit("jsonld");
    reveal_strlit("manchester"); reveal_strlit("microdata"); reveal_strlit("n3");
    reveal_strlit("ndjsonld"); reveal_strlit("nquads"); reveal_strlit("nquadsstar");
    reveal_strlit("ntriples"); reveal_strlit("ntriplesstar");
    reveal_strlit("owlfunctional"); reveal_strlit("owlxml"); reveal_strlit("rdfa");
    reveal_strlit("rdfjson"); reveal_strlit("rdfxml"); reveal_strlit("trig");
    reveal_strlit("trigstar"); reveal_strlit("trix"); reveal_strlit("tsvw");
    reveal_strlit("turtle"); reveal_strlit("turtlestar"); reveal_strlit("yamlld");
    reveal_strlit("brf"); reveal_strlit("hext"); reveal_strlit("omn");
    reveal_strlit("nq"); reveal_strlit("nqs"); reveal_strlit("nt");
    reveal_strlit("nts"); reveal_strlit("ofn"); reveal_strlit("owx");
    reveal_strlit("rj"); reveal_strlit("rdf"); reveal_strlit("trigs");
    reveal_strlit("ttl"); reveal_strlit("ttls"); reveal_strlit(".");
    let n1 = spec_ont_file_name(f1);
    let n2 = spec_ont_file_name(f2);
    assert(n1.len() == n2.len());
    assert(n1[0] == n2[0] && n1[1] == n2[1] && n1[2] == n2[2] && n1[3] == n2[3]);
}

/// The path of the cache file for a format inside a cache directory.
pub open spec fn spec_ont_file(dir: Seq<char>, format: Format) -> Seq<char> {
    dir + "/"@ + spec_ont_file_name(format)
}

/// Maps a (cache directory, format) pair to the cache file path.
pub fn ont_file(dir: &str, format: Format) -> (r: String)
    ensures
        r@ == spec_ont_file(dir@, format),
{
    let mut out = dir.to_owned();
    out.append("/");
    let name = ont_file_name(format);
    out.append(name.as_str());
    out
}

/// The extension of a file name: the characters after the last `.`, if any.
pub open spec fn spec_ext_of(name: Seq<char>) -> Option<Seq<char>>
    decreases name.len(),
{
    if name.len() == 0 {
        None
    } else if name[name.len() - 1] == '.' {
        Some(Seq::empty())
    } else {
        match spec_ext_of(name.take(name.len() - 1)) {
            Some(e) => Some(e.push(name[name.len() - 1])),
            None => None,
        }
    }
}

proof fn lemma_ext_of_no_dot(name: Seq<char>)
    requires
        forall|k: int| 0 <= k < name.len() ==> name[k] != '.',
    ensures
        spec_ext_of(name) is None,
    decreases name.len(),
{
    if name.len() > 0 {
        lemma_ext_of_no_dot(name.take(name.len() - 1));
    }
}

proof fn lemma_ext_of_from_dot(name: Seq<char>, d: int)
    requires
        0 <= d < name.len(),
        name[d] == '.',
        forall|k: int| d < k < name.len() ==> name[k] != '.',
    ensures
        spec_ext_of(name) == Some(name.subrange(d + 1, name.len() as int)),
    decreases name.len() - d,
{
    if d == name.len() - 1 {
        assert(name.subrange(d + 1, name.len() as int) =~= Seq::<char>::empty());
    } else {
        let shorter = name.take(name.len() - 1);
        lemma_ext_of_from_dot(shorter, d);
        assert(shorter.subrange(d + 1, shorter.len() as int).push(name[name.len() - 1])
            =~= name.subrange(d + 1, name.len() as int));
    }
}

/// The format a cache-directory entry is classified as, by its file
/// extension looked up in the registry; `None` for files that map to no
/// known format.
pub open spec fn spec_classify_name(name: Seq<char>) -> Option<Format> {
    match spec_ext_of(name) {
        Some(e) => spec_parse_file_ext(e),
        None => None,
    }
}

/// Classifies a file name against the registry by its extension.
pub fn classify_name(name: &str) -> (r: Option<Format>)
    ensures
        r == spec_classify_name(name@),
{
    let len = name.unicode_len();
    let mut i: usize = len;
    let mut dot: Option<usize> = None;
    while dot.is_none() && i > 0
        invariant
            len == name@.len(),
            i <= len,
            dot is None ==> forall|k: int| i <= k < len ==> name@[k] != '.',
            dot matches Some(d) ==> i == d && d < len && name@[d as int] == '.'
                && forall|k: int| d < k < len ==> name@[k] != '.',
        decreases i,
    {
        i = i - 1;
        let c = name.get_char(i);
        if c == '.' {
            dot = Some(i);
        }
    }
    match dot {
        None => {
            proof {
                lemma_ext_of_no_dot(name@);
            }
            None
        },
        Some(d) => {
            proof {
                lemma_ext_of_from_dot(name@, d as int);
            }
            let ext = name.substring_char(d + 1, len);
            parse_file_ext(ext)
        },
    }
}


proof fn lemma_char_range(c: char)
    ensures
        c as u32 <= 0x10FFFF,
{
}

proof fn lemma_char_cast_injective(c1: char, c2: char)
    requires
        c1 as u32 == c2 as u32,
    ensures
        c1 == c2,
{
}

proof fn lemma_hex_digit_injective(d1: int, d2: int)
    requires
        0 <= d1 < 16,
        0 <= d2 < 16,
        spec_hex_digit(d1) == spec_hex_digit(d2),
    ensures
        d1 == d2,
{
}

proof fn lemma_hex6_injective(v1: u32, v2: u32)
    requires
        spec_hex6(v1 as int) == spec_hex6(v2 as int),
        v1 < 0x110000,
        v2 < 0x110000,
    ensures
        v1 == v2,
{
    let h1 = spec_hex6(v1 as int);
    let h2 = spec_hex6(v2 as int);
    assert(h1[0] == h2[0] && h1[1] == h2[1] && h1[2] == h2[2] && h1[3] == h2[3]
        && h1[4] == h2[4] && h1[5] == h2[5]);
    lemma_hex_digit_injective((v1 as int / 0x100000) % 16, (v2 as int / 0x100000) % 16);
    lemma_hex_digit_injective((v1 as int / 0x10000) % 16, (v2 as int / 0x10000) % 16);
    lemma_hex_digit_injective((v1 as int / 0x1000) % 16, (v2 as int / 0x1000) % 16);
    lemma_hex_digit_injective((v1 as int / 0x100) % 16, (v2 as int / 0x100) % 16);
    lemma_hex_digit_injective((v1 as int / 0x10) % 16, (v2 as int / 0x10) % 16);
    lemma_hex_digit_injective(v1 as int % 16, v2 as int % 16);
    assert(v1 == v2) by (bit_vector)
        requires
            (v1 / 0x100000) % 16 == (v2 / 0x100000) % 16,
            (v1 / 0x10000) % 16 == (v2 / 0x10000) % 16,
            (v1 / 0x1000) % 16 == (v2 / 0x1000) % 16,
            (v1 / 0x100) % 16 == (v2 / 0x100) % 16,
            (v1 / 0x10) % 16 == (v2 / 0x10) % 16,
            v1 % 16 == v2 % 16,
            v1 < 0x110000,
            v2 < 0x110000,
    ;
}

/// The URI encoding is injective: equal encodings come from equal URIs
/// only, so distinct source URIs never share a cache directory.
pub proof fn lemma_encode_injective(s1: Seq<char>, s2: Seq<char>)
    requires
        spec_encode(s1) == spec_encode(s2),
    ensures
        s1 == s2,
    decreases s1.len(),
{
    if s1.len() == 0 && s2.len() == 0 {
        assert(s1 =~= s2);
    } else if s1.len() == 0 || s2.len() == 0 {
        let nonempty = if s1.len() == 0 { s2 } else { s1 };
        assert(spec_encode_char(nonempty[0]).len() >= 1);
        assert(spec_encode(nonempty).len() >= 1);
        assert(false);
    } else {
        let c1 = s1[0];
        let c2 = s2[0];
        assert(spec_encode(s1)[0] == spec_encode_char(c1)[0]);
        assert(spec_encode(s2)[0] == spec_encode_char(c2)[0]);
        if spec_safe_char(c1) && spec_safe_char(c2) {
            assert(c1 == c2);
            assert(spec_encode(s1).skip(1) =~= spec_encode(s1.skip(1)));
            assert(spec_encode(s2).skip(1) =~= spec_encode(s2.skip(1)));
            lemma_encode_injective(s1.skip(1), s2.skip(1));
            assert(s1 =~= seq![c1] + s1.skip(1));
            assert(s2 =~= seq![c2] + s2.skip(1));
            assert(s1 =~= s2);
        } else if !spec_safe_char(c1) && !spec_safe_char(c2) {
            let h1 = spec_hex6(c1 as u32 as int);
            let h2 = spec_hex6(c2 as u32 as int);
            assert(spec_encode(s1).len() >= 7);
            assert forall|k: int| 0 <= k < 6 implies h1[k] == h2[k] by {
                assert(spec_encode(s1)[k + 1] == (seq!['%'] + h1)[k + 1]);
                assert(spec_encode(s2)[k + 1] == (seq!['%'] + h2)[k + 1]);
            }
            assert(h1 =~= h2);
            lemma_char_range(c1);
            lemma_char_range(c2);
            lemma_hex6_injective(c1 as u32, c2 as u32);
            lemma_char_cast_injective(c1, c2);
            assert(c1 == c2);
            assert(spec_encode(s1).skip(7) =~= spec_encode(s1.skip(1)));
            assert(spec_encode(s2).skip(7) =~= spec_encode(s2.skip(1)));
            lemma_encode_injective(s1.skip(1), s2.skip(1));
            assert(s1 =~= seq![c1] + s1.skip(1));
            assert(s2 =~= seq![c2] + s2.skip(1));
            assert(s1 =~= s2);
        } else {
            let safe_head = if spec_safe_char(c1) { c1 } else { c2 };
            assert(spec_encode(s1)[0] == spec_encode(s2)[0]);
            assert(safe_head == '%');
            assert(safe_head as u32 == 37);
            assert(false);
        }
    }
}

/// Collision resistance: under one cache root, two source URIs map to
/// the same cache directory only if they are the same URI.
pub proof fn lemma_ont_dir_injective(cache_root: Seq<char>, u1: Seq<char>, u2: Seq<char>)
    requires
        spec_ont_dir(cache_root, u1) == spec_ont_dir(cache_root, u2),
    ensures
        u1 == u2,
{
    reveal_strlit("/");
    let e1 = spec_encode(u1);
    let e2 = spec_encode(u2);
    let p = cache_root + "/"@;
    assert(spec_ont_dir(cache_root, u1) == p + e1);
    assert(spec_ont_dir(cache_root, u2) == p + e2);
    assert(e1.len() == e2.len());
    assert forall|i: int| 0 <= i < e1.len() implies e1[i] == e2[i] by {
        assert((p + e1)[p.len() + i] == e1[i]);
        assert((p + e2)[p.len() + i] == e2[i]);
    }
    assert(e1 =~= e2);
    lemma_encode_injective(u1, u2);
}

} // verus!
