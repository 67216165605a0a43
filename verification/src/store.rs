//! Durable deduplication store: the set of listing identifiers already
//! notified, kept as a JSON array of strings in a single file. Loading a
//! missing or corrupt file yields an empty set; saving writes the whole
//! set at once, and what was saved decodes back to exactly what was
//! given.
//!
//! The codec round trip is verified: `lemma_save_load_round_trip`
//! proves that decoding an encoded identifier sequence gives it back.
//! The loader also accepts whitespace between tokens, so a
//! pretty-printed or hand-edited array still loads.

use vstd::prelude::*;

use crate::text::{chars_eq, chars_to_string, str_to_chars};

verus! {

/// How one character is written inside a JSON string: quote and
/// backslash get a backslash escape, everything else stands as itself.
pub open spec fn esc_char(c: char) -> Seq<char> {
    if c == '"' {
        seq!['\\', '"']
    } else if c == '\\' {
        seq!['\\', '\\']
    } else {
        seq![c]
    }
}

/// A string's characters, each escaped.
pub open spec fn esc(s: Seq<char>) -> Seq<char>
    decreases s.len(),
{
    if s.len() == 0 {
        Seq::empty()
    } else {
        esc_char(s[0]) + esc(s.skip(1))
    }
}

/// One identifier as a JSON string literal.
pub open spec fn enc_item(g: Seq<char>) -> Seq<char> {
    seq!['"'] + esc(g) + seq!['"']
}

/// The identifiers as a comma-separated run of JSON string literals.
pub open spec fn enc_items(gs: Seq<Seq<char>>) -> Seq<char>
    decreases gs.len(),
{
    if gs.len() == 0 {
        Seq::empty()
    } else if gs.len() == 1 {
        enc_item(gs[0])
    } else {
        enc_item(gs[0]) + seq![','] + enc_items(gs.skip(1))
    }
}

/// The identifiers as a JSON array.
pub open spec fn encode_spec(gs: Seq<Seq<char>>) -> Seq<char> {
    seq!['['] + enc_items(gs) + seq![']']
}

/// Parse the body of a JSON string starting at `i` (just past the
/// opening quote): the unescaped content and the position just past the
/// closing quote.
pub open spec fn ps(s: Seq<char>, i: int) -> Option<(Seq<char>, int)>
    decreases s.len() - i,
{
    if i < 0 || i >= s.len() {
        None
    } else if s[i] == '"' {
        Some((Seq::empty(), i + 1))
    } else if s[i] == '\\' {
        if i + 1 < s.len() && (s[i + 1] == '"' || s[i + 1] == '\\') {
            match ps(s, i + 2) {
                Some((g, j)) => Some((seq![s[i + 1]] + g, j)),
                None => None,
            }
        } else {
            None
        }
    } else {
        match ps(s, i + 1) {
            Some((g, j)) => Some((seq![s[i]] + g, j)),
            None => None,
        }
    }
}

/// A successful string parse always advances and stays in bounds.
proof fn lemma_ps_bounds(s: Seq<char>, i: int)
    ensures
        ps(s, i) is Some ==> i < ps(s, i)->Some_0.1 <= s.len(),
    decreases s.len() - i,
{
    if 0 <= i < s.len() {
        if s[i] == '"' {
        } else if s[i] == '\\' {
            if i + 1 < s.len() && (s[i + 1] == '"' || s[i + 1] == '\\') {
                lemma_ps_bounds(s, i + 2);
            }
        } else {
            lemma_ps_bounds(s, i + 1);
        }
    }
}

/// The whitespace JSON allows between tokens.
pub open spec fn ws_char(c: char) -> bool {
    c == ' ' || c == '\t' || c == '\n' || c == '\r'
}

/// The position of the first non-whitespace character at or after `i`,
/// or the end of the input.
pub open spec fn skip_ws(s: Seq<char>, i: int) -> int
    decreases s.len() - i,
{
    if i < 0 || i >= s.len() {
        i
    } else if ws_char(s[i]) {
        skip_ws(s, i + 1)
    } else {
        i
    }
}

/// Skipping whitespace stays within the input and never goes backwards;
/// where it stops short of the end, a non-whitespace character stands.
proof fn lemma_skip_ws_bounds(s: Seq<char>, i: int)
    requires
        0 <= i <= s.len(),
    ensures
        i <= skip_ws(s, i) <= s.len(),
        skip_ws(s, i) < s.len() ==> !ws_char(s[skip_ws(s, i)]),
    decreases s.len() - i,
{
    if i < s.len() && ws_char(s[i]) {
        lemma_skip_ws_bounds(s, i + 1);
    }
}

/// Parse a non-empty run of JSON string literals from `i` (which must
/// hold the first opening quote) to the closing bracket, after which
/// only whitespace may remain; whitespace is allowed between tokens.
pub open spec fn pi(s: Seq<char>, i: int) -> Option<Seq<Seq<char>>>
    decreases s.len() - i,
    via pi_decreases
{
    if i < 0 || i >= s.len() {
        None
    } else if s[i] != '"' {
        None
    } else {
        match ps(s, i + 1) {
            Some((g, j)) => {
                let j2 = skip_ws(s, j);
                if j2 < s.len() && s[j2] == ',' {
                    match pi(s, skip_ws(s, j2 + 1)) {
                        Some(gs) => Some(seq![g] + gs),
                        None => None,
                    }
                } else if j2 < s.len() && s[j2] == ']' && skip_ws(s, j2 + 1) == s.len() {
                    Some(seq![g])
                } else {
                    None
                }
            },
            None => None,
        }
    }
}

#[via_fn]
proof fn pi_decreases(s: Seq<char>, i: int) {
    lemma_ps_bounds(s, i + 1);
    if 0 <= i < s.len() && s[i] == '"' && ps(s, i + 1) is Some {
        let j = ps(s, i + 1)->Some_0.1;
        lemma_skip_ws_bounds(s, j);
        let j2 = skip_ws(s, j);
        if j2 < s.len() && s[j2] == ',' {
            lemma_skip_ws_bounds(s, j2 + 1);
        }
    }
}

/// Decode a JSON array of strings, tolerating whitespace between
/// tokens; anything else is rejected whole.
pub open spec fn decode_spec(s: Seq<char>) -> Option<Seq<Seq<char>>> {
    let i0 = skip_ws(s, 0);
    if i0 >= s.len() || s[i0] != '[' {
        None
    } else {
        let i1 = skip_ws(s, i0 + 1);
        if i1 < s.len() && s[i1] == ']' {
            if skip_ws(s, i1 + 1) == s.len() {
                Some(Seq::empty())
            } else {
                None
            }
        } else {
            pi(s, i1)
        }
    }
}

/// A decoded list with later repetitions of an identifier dropped, as
/// inserting its entries one by one into an empty set leaves them.
pub open spec fn dedup_spec(gs: Seq<Seq<char>>) -> Seq<Seq<char>>
    decreases gs.len(),
{
    if gs.len() == 0 {
        gs
    } else {
        let rest = dedup_spec(gs.drop_last());
        if rest.contains(gs.last()) {
            rest
        } else {
            rest.push(gs.last())
        }
    }
}

/// The views of a vector of strings.
pub open spec fn views_of(v: Seq<String>) -> Seq<Seq<char>> {
    v.map_values(|s: String| s@)
}

/// Escape every character of `g` for a JSON string literal.
fn escape_chars(g: &Vec<char>) -> (r: Vec<char>)
    ensures
        r@ == esc(g@),
{
    let mut out: Vec<char> = Vec::new();
    let mut i: usize = 0;
    assert(g@.skip(0) =~= g@);
    while i < g.len()
        invariant
            0 <= i <= g.len(),
            out@ + esc(g@.skip(i as int)) == esc(g@),
        decreases g.len() - i,
    {
        let ghost suffix = g@.skip(i as int);
        let c = g[i];
        assert(suffix[0] == c);
        if c == '"' {
            out.push('\\');
            out.push('"');
        } else if c == '\\' {
            out.push('\\');
            out.push('\\');
        } else {
            out.push(c);
        }
        proof {
            assert(suffix.skip(1) =~= g@.skip(i + 1));
            assert(esc(suffix) == esc_char(c) + esc(g@.skip(i + 1)));
            assert(out@ + esc(g@.skip(i + 1)) =~= esc(g@));
        }
        i += 1;
    }
    assert(g@.skip(g@.len() as int) =~= Seq::<char>::empty());
    assert(out@ =~= out@ + esc(g@.skip(g@.len() as int)));
    out
}

/// Appending one more identifier extends the encoded run by a separator
/// (when the run was non-empty) and the new literal.
proof fn lemma_enc_items_snoc(gs: Seq<Seq<char>>, g: Seq<char>)
    ensures
        enc_items(gs.push(g)) == if gs.len() == 0 {
            enc_item(g)
        } else {
            enc_items(gs) + seq![','] + enc_items(seq![g])
        },
    decreases gs.len(),
{
    let whole = gs.push(g);
    assert(enc_items(seq![g]) == enc_item(g)) by {
        assert(seq![g].len() == 1);
        assert(seq![g][0] == g);
    }
    if gs.len() == 0 {
        assert(whole.len() == 1);
        assert(whole[0] == g);
    } else {
        assert(whole.len() >= 2);
        assert(whole[0] == gs[0]);
        assert(whole.skip(1) =~= gs.skip(1).push(g));
        lemma_enc_items_snoc(gs.skip(1), g);
        if gs.len() == 1 {
            assert(gs.skip(1).len() == 0);
            assert(enc_items(whole) == enc_item(gs[0]) + seq![','] + enc_item(g));
            assert(enc_items(gs) == enc_item(gs[0]));
        } else {
            assert(enc_items(whole) == enc_item(whole[0]) + seq![','] + enc_items(whole.skip(1)));
            assert(enc_items(gs) == enc_item(gs[0]) + seq![','] + enc_items(gs.skip(1)));
            assert(enc_item(gs[0]) + seq![','] + (enc_items(gs.skip(1)) + seq![','] + enc_items(
                seq![g],
            )) =~= (enc_item(gs[0]) + seq![','] + enc_items(gs.skip(1))) + seq![','] + enc_items(
                seq![g],
            ));
        }
    }
}

/// Encode identifiers as a JSON array of strings.
pub fn encode_guids(guids: &Vec<String>) -> (r: String)
    ensures
        r@ == encode_spec(views_of(guids@)),
{
    let mut out: Vec<char> = Vec::new();
    out.push('[');
    let mut i: usize = 0;
    assert(views_of(guids@.take(0)) =~= Seq::<Seq<char>>::empty());
    while i < guids.len()
        invariant
            0 <= i <= guids.len(),
            out@ == seq!['['] + enc_items(views_of(guids@.take(i as int))),
        decreases guids.len() - i,
    {
        let ghost pref = views_of(guids@.take(i as int));
        if i > 0 {
            out.push(',');
        }
        out.push('"');
        let chars = str_to_chars(guids[i].as_str());
        let escaped = escape_chars(&chars);
        crate::text::push_all(&mut out, &escaped);
        out.push('"');
        proof {
            let g = guids@[i as int]@;
            assert(views_of(guids@.take(i + 1)) =~= pref.push(g));
            lemma_enc_items_snoc(pref, g);
            assert(enc_items(seq![g]) == enc_item(g)) by {
                assert(seq![g].len() == 1);
                assert(seq![g][0] == g);
            }
            if i == 0 {
                assert(pref.len() == 0);
                assert(out@ =~= seq!['['] + enc_item(g));
            } else {
                assert(pref.len() == i);
                assert(out@ =~= seq!['['] + (enc_items(pref) + seq![','] + enc_item(g)));
            }
        }
        i += 1;
    }
    out.push(']');
    proof {
        assert(guids@.take(guids@.len() as int) =~= guids@);
        assert(out@ =~= seq!['['] + enc_items(views_of(guids@)) + seq![']']);
    }
    chars_to_string(&out)
}

/// Parse one JSON string body starting at `start` (just past the opening
/// quote).
fn parse_string(s: &Vec<char>, start: usize) -> (r: Option<(Vec<char>, usize)>)
    requires
        start <= s.len(),
    ensures
        match r {
            Some(pair) => ps(s@, start as int) == Some((pair.0@, pair.1 as int)) && start < pair.1
                <= s.len(),
            None => ps(s@, start as int) is None,
        },
{
    let mut acc: Vec<char> = Vec::new();
    let mut i: usize = start;
    assert forall|g: Seq<char>| #[trigger] (Seq::<char>::empty() + g) =~= g by {}
    while i < s.len()
        invariant
            start <= i <= s.len(),
            ps(s@, i as int) is Some ==> ps(s@, start as int) == Some(
                (acc@ + ps(s@, i as int)->Some_0.0, ps(s@, i as int)->Some_0.1),
            ),
            ps(s@, i as int) is None ==> ps(s@, start as int) is None,
        decreases s.len() - i,
    {
        let c = s[i];
        if c == '"' {
            assert(ps(s@, i as int) == Some((Seq::<char>::empty(), i + 1 as int)));
            assert(acc@ + Seq::<char>::empty() =~= acc@);
            proof {
                lemma_ps_bounds(s@, start as int);
            }
            return Some((acc, i + 1));
        } else if c == '\\' {
            if i + 1 < s.len() && (s[i + 1] == '"' || s[i + 1] == '\\') {
                let ghost old_acc = acc@;
                acc.push(s[i + 1]);
                proof {
                    if ps(s@, i + 2) is Some {
                        let g = ps(s@, i + 2)->Some_0.0;
                        assert(ps(s@, i as int)->Some_0.0 == seq![s@[i + 1]] + g);
                        assert(old_acc + (seq![s@[i + 1]] + g) =~= acc@ + g);
                    }
                }
                i += 2;
            } else {
                assert(ps(s@, i as int) is None);
                return None;
            }
        } else {
            let ghost old_acc = acc@;
            acc.push(c);
            proof {
                if ps(s@, i + 1) is Some {
                    let g = ps(s@, i + 1)->Some_0.0;
                    assert(ps(s@, i as int)->Some_0.0 == seq![s@[i as int]] + g);
                    assert(old_acc + (seq![s@[i as int]] + g) =~= acc@ + g);
                }
            }
            i += 1;
        }
    }
    assert(ps(s@, i as int) is None);
    None
}

/// Decode a JSON array of strings; `None` for anything malformed,
/// including trailing text.
/// Advance past whitespace between tokens.
fn skip_ws_from(s: &Vec<char>, from: usize) -> (r: usize)
    requires
        from <= s.len(),
    ensures
        r as int == skip_ws(s@, from as int),
        from <= r <= s.len(),
{
    let mut i: usize = from;
    while i < s.len() && (s[i] == ' ' || s[i] == '\t' || s[i] == '\n' || s[i] == '\r')
        invariant
            from <= i <= s.len(),
            skip_ws(s@, from as int) == skip_ws(s@, i as int),
        decreases s.len() - i,
    {
        i += 1;
    }
    i
}

pub fn decode_guids(text: &str) -> (r: Option<Vec<String>>)
    ensures
        match r {
            Some(v) => decode_spec(text@) == Some(views_of(v@)),
            None => decode_spec(text@) is None,
        },
{
    let s = str_to_chars(text);
    let i0 = skip_ws_from(&s, 0);
    if i0 >= s.len() {
        return None;
    }
    if s[i0] != '[' {
        return None;
    }
    let i1 = skip_ws_from(&s, i0 + 1);
    if i1 < s.len() && s[i1] == ']' {
        let i2 = skip_ws_from(&s, i1 + 1);
        if i2 == s.len() {
            let out: Vec<String> = Vec::new();
            assert(views_of(out@) =~= Seq::<Seq<char>>::empty());
            return Some(out);
        } else {
            return None;
        }
    }
    let mut out: Vec<String> = Vec::new();
    let mut i: usize = i1;
    assert(decode_spec(s@) == pi(s@, i1 as int));
    proof {
        if pi(s@, i1 as int) is Some {
            assert(views_of(out@) + pi(s@, i1 as int)->Some_0 =~= pi(s@, i1 as int)->Some_0);
        }
    }
    loop
        invariant
            0 <= i <= s.len(),
            s@ == text@,
            pi(s@, i as int) is Some ==> decode_spec(s@) == Some(
                views_of(out@) + pi(s@, i as int)->Some_0,
            ),
            pi(s@, i as int) is None ==> decode_spec(s@) is None,
        decreases s@.len() - i,
    {
        if i >= s.len() {
            assert(pi(s@, i as int) is None);
            return None;
        }
        if s[i] != '"' {
            assert(pi(s@, i as int) is None);
            return None;
        }
        match parse_string(&s, i + 1) {
            Some(pair) => {
                let (g, j) = pair;
                let ghost old_views = views_of(out@);
                let j2 = skip_ws_from(&s, j);
                if j2 < s.len() && s[j2] == ',' {
                    out.push(chars_to_string(&g));
                    let k = skip_ws_from(&s, j2 + 1);
                    proof {
                        assert(views_of(out@) =~= old_views.push(g@));
                        if pi(s@, k as int) is Some {
                            let rest = pi(s@, k as int)->Some_0;
                            assert(pi(s@, i as int)->Some_0 == seq![g@] + rest);
                            assert(old_views + (seq![g@] + rest) =~= views_of(out@) + rest);
                        } else {
                            assert(pi(s@, i as int) is None);
                        }
                    }
                    i = k;
                } else if j2 < s.len() && s[j2] == ']' {
                    let k = skip_ws_from(&s, j2 + 1);
                    if k == s.len() {
                        out.push(chars_to_string(&g));
                        proof {
                            assert(pi(s@, i as int) == Some(seq![g@]));
                            assert(views_of(out@) =~= old_views.push(g@));
                            assert(old_views + seq![g@] =~= old_views.push(g@));
                        }
                        return Some(out);
                    } else {
                        assert(pi(s@, i as int) is None);
                        return None;
                    }
                } else {
                    assert(pi(s@, i as int) is None);
                    return None;
                }
            },
            None => {
                assert(pi(s@, i as int) is None);
                return None;
            },
        }
    }
}

/// Parsing a string body over `esc(g)` followed by a closing quote
/// recovers `g` exactly and stops just past that quote.
proof fn lemma_ps_esc(s: Seq<char>, i: int, g: Seq<char>)
    requires
        0 <= i,
        i + esc(g).len() < s.len(),
        s.subrange(i, i + esc(g).len()) == esc(g),
        s[i + esc(g).len()] == '"',
    ensures
        ps(s, i) == Some((g, i + esc(g).len() + 1)),
    decreases g.len(),
{
    if g.len() == 0 {
        assert(esc(g) == Seq::<char>::empty());
        assert(s[i] == '"');
        assert(ps(s, i) == Some((Seq::<char>::empty(), i + 1)));
        assert(Seq::<char>::empty() =~= g);
    } else {
        let c = g[0];
        let tail = esc(g.skip(1));
        assert(esc(g) == esc_char(c) + tail);
        let el = esc_char(c).len();
        assert(forall|k: int| 0 <= k < esc(g).len() ==> s[i + k] == esc(g)[k]);
        if c == '"' || c == '\\' {
            assert(el == 2);
            assert(esc(g)[0] == '\\' && esc(g)[1] == c);
            assert(s[i] == '\\');
            assert(s[i + 1] == c);
            assert forall|k: int| 0 <= k < tail.len() implies s[i + 2 + k] == tail[k] by {
                assert(esc(g)[2 + k] == tail[k]);
                assert(s[i + (2 + k)] == esc(g)[2 + k]);
            }
            assert(s.subrange(i + 2, i + 2 + tail.len()) =~= tail);
            lemma_ps_esc(s, i + 2, g.skip(1));
            assert(ps(s, i + 2) == Some((g.skip(1), i + 2 + tail.len() + 1)));
            assert(seq![c] + g.skip(1) =~= g);
            assert(ps(s, i) == Some((g, i + esc(g).len() + 1)));
        } else {
            assert(el == 1);
            assert(esc(g)[0] == c);
            assert(s[i] == c);
            assert forall|k: int| 0 <= k < tail.len() implies s[i + 1 + k] == tail[k] by {
                assert(esc(g)[1 + k] == tail[k]);
                assert(s[i + (1 + k)] == esc(g)[1 + k]);
            }
            assert(s.subrange(i + 1, i + 1 + tail.len()) =~= tail);
            lemma_ps_esc(s, i + 1, g.skip(1));
            assert(ps(s, i + 1) == Some((g.skip(1), i + 1 + tail.len() + 1)));
            assert(seq![c] + g.skip(1) =~= g);
            assert(ps(s, i) == Some((g, i + esc(g).len() + 1)));
        }
    }
}

/// Parsing the item run of an encoded non-empty identifier list, placed
/// between `i` and a closing bracket that ends the input, recovers the
/// list exactly.
proof fn lemma_pi_enc(s: Seq<char>, i: int, gs: Seq<Seq<char>>)
    requires
        gs.len() > 0,
        0 <= i,
        s.len() == i + enc_items(gs).len() + 1,
        s.subrange(i, s.len() - 1) == enc_items(gs),
        s[s.len() - 1] == ']',
    ensures
        pi(s, i) == Some(gs),
    decreases gs.len(),
{
    let g0 = gs[0];
    let item = enc_item(g0);
    let e0 = esc(g0);
    assert(item.len() == e0.len() + 2);
    assert(forall|k: int| 0 <= k < enc_items(gs).len() ==> s[i + k] == enc_items(gs)[k]);
    if gs.len() == 1 {
        assert(enc_items(gs) == item);
    } else {
        assert(enc_items(gs) == item + seq![','] + enc_items(gs.skip(1)));
    }
    assert(forall|k: int| 0 <= k < item.len() ==> enc_items(gs)[k] == item[k]);
    assert(item[0] == '"');
    assert(s[i] == '"');
    assert(forall|k: int| 0 <= k < e0.len() ==> item[k + 1] == e0[k]);
    assert(s.subrange(i + 1, i + 1 + e0.len()) =~= e0);
    assert(item[e0.len() as int + 1] == '"');
    assert(s[i + 1 + e0.len()] == '"');
    lemma_ps_esc(s, i + 1, g0);
    let j = i + 1 + e0.len() + 1;
    assert(ps(s, i + 1) == Some((g0, j)));
    assert(j == i + item.len());
    if gs.len() == 1 {
        assert(j == s.len() - 1);
        assert(s[j] == ']');
        assert(pi(s, i) == Some(seq![g0]));
        assert(seq![g0] =~= gs);
    } else {
        let rest = enc_items(gs.skip(1));
        assert(enc_items(gs)[item.len() as int] == ',');
        assert(s[j] == ',');
        assert(j < s.len());
        assert(s.len() == j + 1 + rest.len() + 1);
        assert(s.subrange(j + 1, s.len() - 1) =~= rest) by {
            assert(forall|k: int| 0 <= k < rest.len() ==> enc_items(gs)[item.len() + 1 + k]
                == rest[k]);
        }
        lemma_pi_enc(s, j + 1, gs.skip(1));
        assert(pi(s, j + 1) == Some(gs.skip(1)));
        assert(pi(s, i) == Some(seq![g0] + gs.skip(1)));
        assert(seq![g0] + gs.skip(1) =~= gs);
    }
}

/// The codec round trip: decoding an encoded identifier list gives the
/// list back, whatever the identifiers hold.
pub proof fn lemma_encode_decode(gs: Seq<Seq<char>>)
    ensures
        decode_spec(encode_spec(gs)) == Some(gs),
{
    let s = encode_spec(gs);
    if gs.len() == 0 {
        assert(enc_items(gs) == Seq::<char>::empty());
        assert(s =~= seq!['[', ']']);
        assert(s.len() == 2 && s[0] == '[' && s[1] == ']');
        assert(gs =~= Seq::<Seq<char>>::empty());
    } else {
        assert(s.len() == enc_items(gs).len() + 2);
        assert(forall|k: int| 0 <= k < enc_items(gs).len() ==> s[1 + k] == enc_items(gs)[k]);
        let item = enc_item(gs[0]);
        if gs.len() == 1 {
            assert(enc_items(gs) == item);
        } else {
            assert(enc_items(gs) == item + seq![','] + enc_items(gs.skip(1)));
        }
        assert(enc_items(gs)[0] == item[0]);
        assert(item[0] == '"');
        assert(s[0] == '[');
        assert(s[1] == '"');
        assert(s.subrange(1, s.len() - 1) =~= enc_items(gs));
        assert(s[s.len() - 1] == ']');
        lemma_pi_enc(s, 1, gs);
    }
}

/// No identifier appears twice.
pub open spec fn distinct(gs: Seq<Seq<char>>) -> bool {
    forall|i: int, j: int| 0 <= i < j < gs.len() ==> gs[i] != gs[j]
}

/// Inserting the entries of a repetition-free list one by one changes
/// nothing.
proof fn lemma_dedup_distinct(gs: Seq<Seq<char>>)
    requires
        distinct(gs),
    ensures
        dedup_spec(gs) == gs,
    decreases gs.len(),
{
    if gs.len() > 0 {
        let front = gs.drop_last();
        assert(distinct(front)) by {
            assert(forall|i: int, j: int| 0 <= i < j < front.len() ==> front[i] == gs[i]
                && front[j] == gs[j]);
        }
        lemma_dedup_distinct(front);
        if front.contains(gs.last()) {
            let k = choose|k: int| 0 <= k < front.len() && front[k] == gs.last();
            assert(gs[k] == gs[gs.len() - 1]);
            assert(false);
        }
        assert(front.push(gs.last()) =~= gs);
    }
}

/// Saving a repetition-free identifier list and loading it back yields
/// exactly the same list: the persistence round trip.
pub proof fn lemma_save_load_round_trip(gs: Seq<Seq<char>>)
    requires
        distinct(gs),
    ensures
        decode_spec(encode_spec(gs)) == Some(gs),
        dedup_spec(gs) == gs,
{
    lemma_encode_decode(gs);
    lemma_dedup_distinct(gs);
}

/// The set of listing identifiers already notified. Its view is the
/// identifier sequence in insertion order; no identifier appears twice.
pub struct GuidStore {
    guids: Vec<String>,
}

impl View for GuidStore {
    type V = Seq<Seq<char>>;

    closed spec fn view(&self) -> Seq<Seq<char>> {
        views_of(self.guids@)
    }
}

impl GuidStore {
    /// The store never holds an identifier twice.
    pub open spec fn wf(&self) -> bool {
        distinct(self@)
    }

    /// The empty store.
    pub fn new() -> (r: GuidStore)
        ensures
            r@ == Seq::<Seq<char>>::empty(),
            r.wf(),
    {
        let r = GuidStore { guids: Vec::new() };
        proof {
            assert(r@ =~= Seq::<Seq<char>>::empty());
        }
        r
    }

    /// How many identifiers have been recorded.
    pub fn len(&self) -> (r: usize)
        ensures
            r == self@.len(),
    {
        self.guids.len()
    }

    /// Whether this identifier has already been notified.
    pub fn contains_guid(&self, guid: &str) -> (r: bool)
        ensures
            r == self@.contains(guid@),
    {
        let needle = str_to_chars(guid);
        let mut i: usize = 0;
        while i < self.guids.len()
            invariant
                0 <= i <= self.guids@.len(),
                needle@ == guid@,
                forall|k: int| 0 <= k < i ==> self@[k] != guid@,
            decreases self.guids@.len() - i,
        {
            let candidate = str_to_chars(self.guids[i].as_str());
            if chars_eq(&candidate, &needle) {
                assert(self@[i as int] == guid@);
                return true;
            }
            i += 1;
        }
        false
    }

    /// Record an identifier; recording one already present changes
    /// nothing, so membership grows monotonically and stays
    /// repetition-free.
    pub fn insert(&mut self, guid: String)
        requires
            old(self).wf(),
        ensures
            final(self)@ == if old(self)@.contains(guid@) {
                old(self)@
            } else {
                old(self)@.push(guid@)
            },
            final(self).wf(),
    {
        let present = self.contains_guid(guid.as_str());
        if !present {
            let ghost old_views = self@;
            self.guids.push(guid);
            proof {
                assert(self@ =~= old_views.push(guid@));
                assert forall|i: int, j: int| 0 <= i < j < self@.len() implies self@[i]
                    != self@[j] by {
                    if j == self@.len() - 1 {
                        assert(self@[i] == old_views[i]);
                    }
                }
            }
        }
    }

    /// Serialize the whole store, for the once-per-cycle atomic rewrite.
    pub fn to_json(&self) -> (r: String)
        ensures
            r@ == encode_spec(self@),
    {
        encode_guids(&self.guids)
    }

    /// Rebuild a store from a file's text. A text that does not decode —
    /// a partially written or corrupted file — yields the empty store
    /// rather than an error; repeated identifiers collapse to their
    /// first occurrence.
    pub fn from_json(text: &str) -> (r: GuidStore)
        ensures
            r.wf(),
            match decode_spec(text@) {
                Some(gs) => r@ == dedup_spec(gs),
                None => r@ == Seq::<Seq<char>>::empty(),
            },
    {
        match decode_guids(text) {
            Some(decoded) => {
                let ghost gs = views_of(decoded@);
                let mut store = GuidStore::new();
                let mut decoded = decoded;
                let ghost done = Seq::<Seq<char>>::empty();
                assert(gs.take(0) =~= Seq::<Seq<char>>::empty());
                assert(dedup_spec(gs.take(0)) == gs.take(0));
                while decoded.len() > 0
                    invariant
                        store.wf(),
                        views_of(decoded@).len() + done.len() == gs.len(),
                        done == gs.take(done.len() as int),
                        views_of(decoded@) == gs.skip(done.len() as int),
                        store@ == dedup_spec(done),
                    decreases decoded@.len(),
                {
                    let ghost n = done.len() as int;
                    let ghost before = decoded@;
                    let g = decoded.remove(0);
                    proof {
                        assert(views_of(before)[0] == before[0]@);
                        assert(views_of(before)[0] == gs.skip(n)[0]);
                        assert(gs.skip(n)[0] == gs[n]);
                        assert(g@ == gs[n]);
                    }
                    store.insert(g);
                    proof {
                        done = done.push(gs[n]);
                        assert(done =~= gs.take(n + 1));
                        assert forall|k: int| 0 <= k < decoded@.len() implies views_of(decoded@)[k]
                            == gs[n + 1 + k] by {
                            assert(decoded@[k] == before[k + 1]);
                            assert(views_of(decoded@)[k] == decoded@[k]@);
                            assert(views_of(before)[k + 1] == before[k + 1]@);
                            assert(views_of(before)[k + 1] == gs.skip(n)[k + 1]);
                        }
                        assert(views_of(decoded@) =~= gs.skip(n + 1));
                        assert(gs.take(n + 1).drop_last() =~= gs.take(n));
                        assert(gs.take(n + 1).last() == gs[n]);
                        assert(dedup_spec(gs.take(n + 1)) == if dedup_spec(gs.take(n)).contains(
                            gs[n],
                        ) {
                            dedup_spec(gs.take(n))
                        } else {
                            dedup_spec(gs.take(n)).push(gs[n])
                        });
                    }
                }
                proof {
                    assert(done =~= gs);
                }
                store
            },
            None => GuidStore::new(),
        }
    }
}

} // verus!
