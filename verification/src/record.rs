//! The durable metadata record: a stable, human-diffable text format for the
//! last committed artifact metadata, with a verified renderer and parser.
//!
//! The format is one line per field, `<key>=<value>` when the value is
//! present and `<key>-` when it is absent, each line ended by a line break.
//! Header values never contain line breaks, so values are stored verbatim.
//! The parser accepts exactly the rendered form of some record; anything
//! else is malformed and is treated like a missing record, which degrades
//! safely to "fetch everything".

use crate::metadata::CoreInfo;
use crate::metadata::CoreInfoV;
use crate::metadata::opt_view;
use crate::metadata::value_wf;
use vstd::prelude::*;
use vstd::string::StrSliceExecFns;
use vstd::string::StringExecFns;

verus! {

/// The characters that encode one field value: `=` and the value itself when
/// present, `-` when absent, either way ended by a line break.
pub open spec fn value_token(v: Option<Seq<char>>) -> Seq<char> {
    match v {
        Some(x) => seq!['='] + x + seq!['\n'],
        None => seq!['-', '\n'],
    }
}

/// One rendered field line: the key followed by the value token.
pub open spec fn spec_field(key: Seq<char>, v: Option<Seq<char>>) -> Seq<char> {
    key + value_token(v)
}

/// The full rendered record: the entity tag line, then the modification
/// timestamp line.
pub open spec fn spec_render(m: CoreInfoV) -> Seq<char> {
    spec_field("etag"@, m.etag) + spec_field("last_modified"@, m.last_modified)
}

/// The content is the rendered form of some well-formed record.
pub open spec fn parseable(s: Seq<char>) -> bool {
    exists|mv: CoreInfoV| mv.wf() && s == #[trigger] spec_render(mv)
}

/// The record whose rendered form the content is.
pub open spec fn spec_parsed(s: Seq<char>) -> CoreInfoV {
    choose|mv: CoreInfoV| mv.wf() && s == #[trigger] spec_render(mv)
}

/// What loading the record file yields: the parsed record when the file was
/// readable and well formed, and the empty record otherwise — a missing,
/// unreadable or corrupt record degrades to "never observed".
pub open spec fn spec_load(c: Option<Seq<char>>) -> CoreInfoV {
    match c {
        Some(s) => if parseable(s) {
            spec_parsed(s)
        } else {
            CoreInfoV::empty()
        },
        None => CoreInfoV::empty(),
    }
}

/// Appends one rendered field line to the output.
fn append_field(out: &mut String, key: &str, v: &Option<String>)
    ensures
        final(out)@ == old(out)@ + spec_field(key@, opt_view(*v)),
{
    out.append(key);
    match v {
        Some(x) => {
            out.append("=");
            out.append(x.as_str());
            out.append("\n");
            proof {
                reveal_strlit("=");
                reveal_strlit("\n");
                assert(out@ =~= old(out)@ + spec_field(key@, opt_view(*v)));
            }
        },
        None => {
            out.append("-");
            out.append("\n");
            proof {
                reveal_strlit("-");
                reveal_strlit("\n");
                assert(out@ =~= old(out)@ + spec_field(key@, opt_view(*v)));
            }
        },
    }
}

/// Renders the metadata record in its stable text form.
pub fn render_record(m: &CoreInfo) -> (r: String)
    ensures
        r@ == spec_render(m@),
{
    let mut out = String::new();
    append_field(&mut out, "etag", &m.etag);
    append_field(&mut out, "last_modified", &m.last_modified);
    proof {
        assert(out@ =~= spec_render(m@));
    }
    out
}

/// Reports whether the characters of `key` stand in `s` at position `i`.
fn prefix_matches(s: &str, i: usize, key: &str) -> (r: bool)
    requires
        i <= s@.len(),
    ensures
        r <==> (i + key@.len() <= s@.len() && s@.subrange(
            i as int,
            i + key@.len(),
        ) == key@),
{
    let n = s.unicode_len();
    let klen = key.unicode_len();
    if klen > n - i {
        return false;
    }
    let mut t: usize = 0;
    while t < klen
        invariant
            t <= klen,
            i + klen <= n,
            n == s@.len(),
            klen == key@.len(),
            forall|u: int| 0 <= u < t ==> s@[i + u] == key@[u],
        decreases klen - t,
    {
        let a = s.get_char(i + t);
        let b = key.get_char(t);
        if a != b {
            proof {
                assert(s@.subrange(i as int, i + key@.len())[t as int] == s@[i + t]);
            }
            return false;
        }
        t = t + 1;
    }
    proof {
        assert(s@.subrange(i as int, i + key@.len()) =~= key@);
    }
    true
}

/// Returns the position of the first line break at or after `from`, if any.
fn find_newline(s: &str, from: usize) -> (r: Option<usize>)
    requires
        from <= s@.len(),
    ensures
        match r {
            Some(k) => from <= k < s@.len() && s@[k as int] == '\n' && (forall|t: int|
                from <= t < k ==> s@[t] != '\n'),
            None => forall|t: int| from <= t < s@.len() ==> s@[t] != '\n',
        },
{
    let n = s.unicode_len();
    let mut k: usize = from;
    while k < n
        invariant
            from <= k <= n,
            n == s@.len(),
            forall|t: int| from <= t < k ==> s@[t] != '\n',
        decreases n - k,
    {
        let c = s.get_char(k);
        if c == '\n' {
            return Some(k);
        }
        k = k + 1;
    }
    None
}

/// An index inside a matching slice of `s` carries the slice's character.
proof fn lemma_slice_index(s: Seq<char>, i: int, f: Seq<char>, u: int)
    requires
        0 <= i,
        i + f.len() <= s.len(),
        s.subrange(i, i + f.len()) == f,
        0 <= u < f.len(),
    ensures
        s[i + u] == f[u],
{
    assert(s.subrange(i, i + f.len())[u] == s[i + u]);
}

/// Parses one field line of the record: the key at position `i`, then the
/// value token. Returns the parsed value and the position just past the
/// line. The contract says exactly which slices parse: a parse consumes the
/// rendered form of its result (soundness), and wherever a rendered field
/// stands at `i`, the parse succeeds with that value (completeness).
fn parse_field(s: &str, i: usize, key: &str) -> (r: Option<(Option<String>, usize)>)
    requires
        i <= s@.len(),
    ensures
        (r matches Some(p) ==> i < p.1 <= s@.len() && value_wf(opt_view(p.0)) && s@.subrange(
            i as int,
            p.1 as int,
        ) == spec_field(key@, opt_view(p.0))),
        (forall|vv: Option<Seq<char>>|
            (value_wf(vv) && i + spec_field(key@, vv).len() <= s@.len() && s@.subrange(
                i as int,
                i + spec_field(key@, vv).len(),
            ) == #[trigger] spec_field(key@, vv)) ==> (r matches Some(p) && opt_view(p.0) == vv
                && p.1 == i + spec_field(key@, vv).len())),
{
    let n = s.unicode_len();
    let klen = key.unicode_len();
    let ghost kv = key@;
    if !prefix_matches(s, i, key) {
        proof {
            assert forall|vv: Option<Seq<char>>|
                !(value_wf(vv) && i + spec_field(kv, vv).len() <= s@.len() && s@.subrange(
                    i as int,
                    i + spec_field(kv, vv).len(),
                ) == #[trigger] spec_field(kv, vv)) by {
                if value_wf(vv) && i + spec_field(kv, vv).len() <= s@.len() && s@.subrange(
                    i as int,
                    i + spec_field(kv, vv).len(),
                ) == spec_field(kv, vv) {
                    let f = spec_field(kv, vv);
                    assert(value_token(vv).len() >= 2);
                    assert forall|u: int| 0 <= u < kv.len() implies s@[i + u] == kv[u] by {
                        lemma_slice_index(s@, i as int, f, u);
                        assert(f[u] == kv[u]);
                    }
                    assert(s@.subrange(i as int, i + kv.len()) =~= kv);
                }
            }
        }
        return None;
    }
    proof {
        assert forall|u: int| 0 <= u < kv.len() implies s@[i + u] == kv[u] by {
            assert(s@.subrange(i as int, i + kv.len())[u] == s@[i + u]);
        }
    }
    let j = i + klen;
    if j >= n {
        proof {
            assert forall|vv: Option<Seq<char>>|
                !(value_wf(vv) && i + spec_field(kv, vv).len() <= s@.len() && s@.subrange(
                    i as int,
                    i + spec_field(kv, vv).len(),
                ) == #[trigger] spec_field(kv, vv)) by {
                assert(value_token(vv).len() >= 2);
            }
        }
        return None;
    }
    let c = s.get_char(j);
    if c == '-' {
        let have_nl = j + 1 < n && s.get_char(j + 1) == '\n';
        if have_nl {
            proof {
                assert(s@.subrange(i as int, (j + 2) as int) =~= spec_field(kv, None::<Seq<char>>));
                assert forall|vv: Option<Seq<char>>|
                    (value_wf(vv) && i + spec_field(kv, vv).len() <= s@.len() && s@.subrange(
                        i as int,
                        i + spec_field(kv, vv).len(),
                    ) == #[trigger] spec_field(kv, vv)) implies (vv is None && i + spec_field(
                    kv,
                    vv,
                ).len() == j + 2) by {
                    let f = spec_field(kv, vv);
                    match vv {
                        Some(x) => {
                            lemma_slice_index(s@, i as int, f, kv.len() as int);
                            assert(f[kv.len() as int] == '=');
                            assert(false);
                        },
                        None => {},
                    }
                }
            }
            return Some((None, j + 2));
        }
        proof {
            assert forall|vv: Option<Seq<char>>|
                !(value_wf(vv) && i + spec_field(kv, vv).len() <= s@.len() && s@.subrange(
                    i as int,
                    i + spec_field(kv, vv).len(),
                ) == #[trigger] spec_field(kv, vv)) by {
                if value_wf(vv) && i + spec_field(kv, vv).len() <= s@.len() && s@.subrange(
                    i as int,
                    i + spec_field(kv, vv).len(),
                ) == spec_field(kv, vv) {
                    let f = spec_field(kv, vv);
                    match vv {
                        Some(x) => {
                            lemma_slice_index(s@, i as int, f, kv.len() as int);
                            assert(f[kv.len() as int] == '=');
                            assert(false);
                        },
                        None => {
                            assert(f.len() == kv.len() + 2);
                            lemma_slice_index(s@, i as int, f, kv.len() + 1 as int);
                            assert(f[kv.len() + 1 as int] == '\n');
                            assert(false);
                        },
                    }
                }
            }
        }
        return None;
    }
    if c == '=' {
        match find_newline(s, j + 1) {
            None => {
                proof {
                    assert forall|vv: Option<Seq<char>>|
                        !(value_wf(vv) && i + spec_field(kv, vv).len() <= s@.len() && s@.subrange(
                            i as int,
                            i + spec_field(kv, vv).len(),
                        ) == #[trigger] spec_field(kv, vv)) by {
                        if value_wf(vv) && i + spec_field(kv, vv).len() <= s@.len() && s@.subrange(
                            i as int,
                            i + spec_field(kv, vv).len(),
                        ) == spec_field(kv, vv) {
                            let f = spec_field(kv, vv);
                            match vv {
                                Some(x) => {
                                    lemma_slice_index(s@, i as int, f, kv.len() + 1 + x.len() as int);
                                    assert(f[kv.len() + 1 + x.len() as int] == '\n');
                                    assert(false);
                                },
                                None => {
                                    lemma_slice_index(s@, i as int, f, kv.len() as int);
                                    assert(f[kv.len() as int] == '-');
                                    assert(false);
                                },
                            }
                        }
                    }
                }
                None
            },
            Some(k) => {
                let val: String = s.substring_char(j + 1, k).to_owned();
                proof {
                    assert(val@ =~= s@.subrange((j + 1) as int, k as int));
                    assert forall|t: int| 0 <= t < val@.len() implies s@[j + 1 + t] == val@[t] by {
                        assert(s@.subrange((j + 1) as int, k as int)[t] == s@[j + 1 + t]);
                    }
                    assert(s@.subrange(i as int, (k + 1) as int) =~= spec_field(
                        kv,
                        Some(val@),
                    ));
                    assert forall|vv: Option<Seq<char>>|
                        (value_wf(vv) && i + spec_field(kv, vv).len() <= s@.len() && s@.subrange(
                            i as int,
                            i + spec_field(kv, vv).len(),
                        ) == #[trigger] spec_field(kv, vv)) implies (vv == Some(val@) && i
                        + spec_field(kv, vv).len() == k + 1) by {
                        let f = spec_field(kv, vv);
                        match vv {
                            Some(x) => {
                                let p = kv.len() + 1 + x.len();
                                lemma_slice_index(s@, i as int, f, p as int);
                                assert(f[p as int] == '\n');
                                assert(s@[i + p] == '\n');
                                assert forall|t: int| 0 <= t < x.len() implies s@[i + kv.len() + 1
                                    + t] == x[t] by {
                                    lemma_slice_index(s@, i as int, f, kv.len() + 1 + t);
                                    assert(f[kv.len() + 1 + t] == x[t]);
                                }
                                // The first line break after the value marker is
                                // the one that ends the token, so the scan
                                // stopped there.
                                if i + p < k {
                                    assert(s@[i + p] != '\n');
                                    assert(false);
                                }
                                if i + p > k {
                                    let t = k - (i + kv.len() + 1);
                                    assert(s@[i + kv.len() + 1 + t] == x[t]);
                                    assert(x[t] != '\n');
                                    assert(false);
                                }
                                assert(x =~= val@);
                            },
                            None => {
                                lemma_slice_index(s@, i as int, f, kv.len() as int);
                                assert(f[kv.len() as int] == '-');
                                assert(false);
                            },
                        }
                    }
                }
                Some((Some(val), k + 1))
            },
        }
    } else {
        proof {
            assert forall|vv: Option<Seq<char>>|
                !(value_wf(vv) && i + spec_field(kv, vv).len() <= s@.len() && s@.subrange(
                    i as int,
                    i + spec_field(kv, vv).len(),
                ) == #[trigger] spec_field(kv, vv)) by {
                if value_wf(vv) && i + spec_field(kv, vv).len() <= s@.len() && s@.subrange(
                    i as int,
                    i + spec_field(kv, vv).len(),
                ) == spec_field(kv, vv) {
                    let f = spec_field(kv, vv);
                    lemma_slice_index(s@, i as int, f, kv.len() as int);
                    match vv {
                        Some(x) => {
                            assert(f[kv.len() as int] == '=');
                        },
                        None => {
                            assert(f[kv.len() as int] == '-');
                        },
                    }
                    assert(false);
                }
            }
        }
        None
    }
}

/// Parses the record from its stable text form. Succeeds exactly on the
/// rendered form of a well-formed record, and then returns that record.
pub fn parse_record(s: &str) -> (r: Option<CoreInfo>)
    ensures
        (r matches Some(m) ==> m@.wf() && s@ == spec_render(m@)),
        (forall|mv: CoreInfoV| (mv.wf() && s@ == #[trigger] spec_render(mv)) ==> (r matches Some(m)
            && m@ == mv)),
{
    let n = s.unicode_len();
    let r1 = parse_field(s, 0, "etag");
    match r1 {
        None => {
            proof {
                assert forall|mv: CoreInfoV| !(mv.wf() && s@ == #[trigger] spec_render(mv)) by {
                    if mv.wf() && s@ == spec_render(mv) {
                        let f1 = spec_field("etag"@, mv.etag);
                        assert(s@.subrange(0, f1.len() as int) =~= f1);
                    }
                }
            }
            None
        },
        Some((v1, i1)) => {
            let r2 = parse_field(s, i1, "last_modified");
            match r2 {
                None => {
                    proof {
                        assert forall|mv: CoreInfoV|
                            !(mv.wf() && s@ == #[trigger] spec_render(mv)) by {
                            if mv.wf() && s@ == spec_render(mv) {
                                let f1 = spec_field("etag"@, mv.etag);
                                let f2 = spec_field("last_modified"@, mv.last_modified);
                                assert(s@.subrange(0, f1.len() as int) =~= f1);
                                assert(i1 == f1.len());
                                assert(s@.subrange(i1 as int, i1 + f2.len()) =~= f2);
                            }
                        }
                    }
                    None
                },
                Some((v2, i2)) => {
                    if i2 == n {
                        let m = CoreInfo { etag: v1, last_modified: v2 };
                        proof {
                            assert(s@ =~= s@.subrange(0, i1 as int) + s@.subrange(
                                i1 as int,
                                i2 as int,
                            ));
                            assert(s@ == spec_render(m@));
                            assert forall|mv: CoreInfoV|
                                (mv.wf() && s@ == #[trigger] spec_render(mv)) implies m@ == mv by {
                                let f1 = spec_field("etag"@, mv.etag);
                                let f2 = spec_field("last_modified"@, mv.last_modified);
                                assert(s@.subrange(0, f1.len() as int) =~= f1);
                                assert(opt_view(v1) == mv.etag && i1 == f1.len());
                                assert(s@.subrange(i1 as int, i1 + f2.len()) =~= f2);
                                assert(opt_view(v2) == mv.last_modified);
                            }
                        }
                        Some(m)
                    } else {
                        proof {
                            assert forall|mv: CoreInfoV|
                                !(mv.wf() && s@ == #[trigger] spec_render(mv)) by {
                                if mv.wf() && s@ == spec_render(mv) {
                                    let f1 = spec_field("etag"@, mv.etag);
                                    let f2 = spec_field("last_modified"@, mv.last_modified);
                                    assert(s@.subrange(0, f1.len() as int) =~= f1);
                                    assert(i1 == f1.len());
                                    assert(s@.subrange(i1 as int, i1 + f2.len()) =~= f2);
                                    assert(i2 == f1.len() + f2.len());
                                }
                            }
                        }
                        None
                    }
                },
            }
        },
    }
}

/// A field with a given key placed at one position determines its value:
/// two well-formed values whose rendered field lines both stand at `p`
/// in `s` are the same value.
proof fn lemma_field_determined(
    s: Seq<char>,
    p: int,
    key: Seq<char>,
    va: Option<Seq<char>>,
    vb: Option<Seq<char>>,
)
    requires
        0 <= p,
        value_wf(va),
        value_wf(vb),
        p + spec_field(key, va).len() <= s.len(),
        p + spec_field(key, vb).len() <= s.len(),
        s.subrange(p, p + spec_field(key, va).len()) == spec_field(key, va),
        s.subrange(p, p + spec_field(key, vb).len()) == spec_field(key, vb),
    ensures
        va == vb,
{
    let fa = spec_field(key, va);
    let fb = spec_field(key, vb);
    let k = key.len() as int;
    match (va, vb) {
        (Some(xa), Some(xb)) => {
            assert forall|t: int| 0 <= t < xa.len() implies s[p + k + 1 + t] == xa[t] by {
                lemma_slice_index(s, p, fa, k + 1 + t);
                assert(fa[k + 1 + t] == xa[t]);
            }
            lemma_slice_index(s, p, fa, k + 1 + xa.len() as int);
            assert(s[p + k + 1 + xa.len() as int] == '\n');
            assert forall|t: int| 0 <= t < xb.len() implies s[p + k + 1 + t] == xb[t] by {
                lemma_slice_index(s, p, fb, k + 1 + t);
                assert(fb[k + 1 + t] == xb[t]);
            }
            lemma_slice_index(s, p, fb, k + 1 + xb.len() as int);
            assert(s[p + k + 1 + xb.len() as int] == '\n');
            // The line break ending each value is the first one, so both
            // values end at the same place.
            if xa.len() < xb.len() {
                let t = xa.len() as int;
                assert(s[p + k + 1 + t] == xb[t]);
                assert(xb[t] != '\n');
                assert(false);
            }
            if xb.len() < xa.len() {
                let t = xb.len() as int;
                assert(s[p + k + 1 + t] == xa[t]);
                assert(xa[t] != '\n');
                assert(false);
            }
            assert(xa =~= xb);
        },
        (Some(xa), None) => {
            lemma_slice_index(s, p, fa, k);
            assert(fa[k] == '=');
            lemma_slice_index(s, p, fb, k);
            assert(fb[k] == '-');
            assert(false);
        },
        (None, Some(xb)) => {
            lemma_slice_index(s, p, fa, k);
            assert(fa[k] == '-');
            lemma_slice_index(s, p, fb, k);
            assert(fb[k] == '=');
            assert(false);
        },
        (None, None) => {},
    }
}

/// The record format round-trips: the rendered form of a well-formed record
/// is parseable, and what it parses to is exactly that record. In
/// particular no two well-formed records share a rendered form.
pub proof fn law_record_round_trip(m: CoreInfoV)
    requires
        m.wf(),
    ensures
        parseable(spec_render(m)),
        spec_parsed(spec_render(m)) == m,
{
    let s = spec_render(m);
    assert(parseable(s));
    let w = spec_parsed(s);
    assert(w.wf() && s == spec_render(w));
    let f1m = spec_field("etag"@, m.etag);
    let f1w = spec_field("etag"@, w.etag);
    let f2m = spec_field("last_modified"@, m.last_modified);
    let f2w = spec_field("last_modified"@, w.last_modified);
    assert(s.subrange(0, f1m.len() as int) =~= f1m);
    assert(s.subrange(0, f1w.len() as int) =~= f1w);
    lemma_field_determined(s, 0, "etag"@, m.etag, w.etag);
    assert(f1m == f1w);
    assert(s.subrange(f1m.len() as int, f1m.len() + f2m.len() as int) =~= f2m);
    assert(s.subrange(f1w.len() as int, f1w.len() + f2w.len() as int) =~= f2w);
    lemma_field_determined(s, f1m.len() as int, "last_modified"@, m.last_modified, w.last_modified);
    assert(m == w);
}

/// Loads the metadata record from the content of the record file, `None`
/// standing for a file that was missing or unreadable. Malformed content is
/// treated exactly like a missing file: the empty record comes back and the
/// next comparison fetches everything.
pub fn load_record(content: Option<&str>) -> (r: CoreInfo)
    ensures
        r@.wf(),
        r@ == spec_load(
            match content {
                Some(s) => Some(s@),
                None => None,
            },
        ),
{
    match content {
        None => CoreInfo::new(),
        Some(s) => {
            match parse_record(s) {
                Some(m) => {
                    proof {
                        assert(parseable(s@));
                        let mv = spec_parsed(s@);
                        assert(mv.wf() && s@ == spec_render(mv));
                        assert(m@ == mv);
                    }
                    m
                },
                None => {
                    proof {
                        if parseable(s@) {
                            let mv = spec_parsed(s@);
                            assert(mv.wf() && s@ == spec_render(mv));
                            assert(false);
                        }
                    }
                    CoreInfo::new()
                },
            }
        },
    }
}

} // verus!
