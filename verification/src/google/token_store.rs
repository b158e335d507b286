//! Where access tokens are kept between runs, and under which key.

use crate::text::{joined, join};
use vstd::prelude::*;

verus! {

/// The SHA-256 digest of a run of bytes.
pub uninterp spec fn sha256_digest(data: Seq<u8>) -> Seq<u8>;

/// A run of bytes in base64 with the alphabet for URLs and without padding.
pub uninterp spec fn base64_url_no_pad(data: Seq<u8>) -> Seq<char>;

/// How many characters the base64 form of `n` bytes has without padding:
/// four for every three bytes, and two or three for one or two bytes left
/// over.
pub open spec fn base64_len(n: nat) -> nat {
    n / 3 * 4 + if n % 3 == 0 {
        0nat
    } else if n % 3 == 1 {
        2nat
    } else {
        3nat
    }
}

/// Whether `c` belongs to the base64 alphabet for URLs: the letters and
/// digits of ASCII, `-` and `_`.
pub open spec fn is_base64_url_char(c: char) -> bool {
    ||| 'A' <= c <= 'Z'
    ||| 'a' <= c <= 'z'
    ||| '0' <= c <= '9'
    ||| c == '-'
    ||| c == '_'
}

/// How many characters a key of scopes has: the base64 form of a digest of
/// 32 bytes.
pub open spec fn scopes_key_len() -> nat {
    43
}

/// A store of access tokens in a file.
#[derive(Debug, PartialEq, Eq)]
pub struct FileTokenStorage {
    path: String,
}

impl Clone for FileTokenStorage {
    fn clone(&self) -> (copy: Self)
        ensures
            copy == *self,
    {
        FileTokenStorage { path: self.path.clone() }
    }
}

/// Whether the text `a` comes before the text `b`: at the first place
/// where they differ `a` has the smaller character, or `a` ends there and
/// `b` goes on.
pub open spec fn text_less(a: Seq<char>, b: Seq<char>) -> bool
    decreases a.len(),
{
    if b.len() == 0 {
        false
    } else if a.len() == 0 {
        true
    } else if a[0] != b[0] {
        a[0] < b[0]
    } else {
        text_less(a.drop_first(), b.drop_first())
    }
}

/// Whether the texts stand in ascending order, none twice.
pub open spec fn ascending(texts: Seq<Seq<char>>) -> bool {
    forall|i: int, j: int| 0 <= i < j < texts.len() ==> text_less(#[trigger] texts[i], #[trigger] texts[j])
}

/// Whether `a` and `b` hold the same texts, however often and in whatever
/// order.
pub open spec fn same_texts(a: Seq<Seq<char>>, b: Seq<Seq<char>>) -> bool {
    forall|t: Seq<char>| a.contains(t) <==> b.contains(t)
}

/// The texts of `scopes` in ascending order, each once.
pub open spec fn canonical_scopes(scopes: Seq<Seq<char>>) -> Seq<Seq<char>> {
    choose|sorted: Seq<Seq<char>>| ascending(sorted) && same_texts(sorted, scopes)
}

/// The key of a list of scopes: the scopes in ascending order, each once,
/// with a blank between neighbours; of that the SHA-256 digest; and of the
/// digest the base64 form for URLs, without padding.
pub open spec fn scopes_key_text(scopes: Seq<Seq<char>>) -> Seq<char> {
    base64_url_no_pad(
        sha256_digest(vstd::utf8::encode_utf8(joined(canonical_scopes(scopes), " "@))),
    )
}

/// The key under which the token for a list of scopes is kept.
pub open spec fn entry_key_text(scopes: Seq<Seq<char>>) -> Seq<char> {
    "oauth_token:"@ + scopes_key_text(scopes)
}

/// The texts of a list of scopes.
pub open spec fn texts_of(scopes: Seq<&str>) -> Seq<Seq<char>> {
    scopes.map_values(|s: &str| s@)
}

/// No text comes before itself.
pub proof fn lemma_text_less_irreflexive(a: Seq<char>)
    ensures
        !text_less(a, a),
    decreases a.len(),
{
    if a.len() > 0 {
        lemma_text_less_irreflexive(a.drop_first());
    }
}

/// Of two different texts one comes before the other.
pub proof fn lemma_text_less_total(a: Seq<char>, b: Seq<char>)
    ensures
        a == b || text_less(a, b) || text_less(b, a),
    decreases a.len(),
{
    if a.len() > 0 && b.len() > 0 && a[0] == b[0] {
        lemma_text_less_total(a.drop_first(), b.drop_first());
        if a.drop_first() == b.drop_first() {
            assert(a =~= seq![a[0]] + a.drop_first());
            assert(b =~= seq![b[0]] + b.drop_first());
        }
    } else if a.len() == 0 && b.len() == 0 {
        assert(a =~= b);
    }
}

/// What comes before a text comes before all that the text comes before.
pub proof fn lemma_text_less_transitive(a: Seq<char>, b: Seq<char>, c: Seq<char>)
    requires
        text_less(a, b),
        text_less(b, c),
    ensures
        text_less(a, c),
    decreases a.len(),
{
    if a.len() > 0 && a[0] == b[0] && b[0] == c[0] {
        lemma_text_less_transitive(a.drop_first(), b.drop_first(), c.drop_first());
    }
}

/// Two lists in ascending order that hold the same texts are the same list.
pub proof fn lemma_ascending_unique(a: Seq<Seq<char>>, b: Seq<Seq<char>>)
    requires
        ascending(a),
        ascending(b),
        same_texts(a, b),
    ensures
        a == b,
    decreases a.len(),
{
    if a.len() == 0 {
        if b.len() > 0 {
            assert(b.contains(b[0]));
            assert(a.contains(b[0]));
        }
        assert(a =~= b);
    } else if b.len() == 0 {
        assert(a.contains(a[0]));
        assert(b.contains(a[0]));
    } else {
        // The first text of each list is the least of all.
        assert(a.contains(a[0]));
        assert(b.contains(a[0]));
        let ia = choose|i: int| 0 <= i < b.len() && b[i] == a[0];
        assert(b.contains(b[0]));
        assert(a.contains(b[0]));
        let ib = choose|i: int| 0 <= i < a.len() && a[i] == b[0];
        if ia > 0 {
            assert(text_less(b[0], b[ia]));
            if ib > 0 {
                assert(text_less(a[0], a[ib]));
                lemma_text_less_transitive(a[0], b[0], a[0]);
                lemma_text_less_irreflexive(a[0]);
            }
        }
        assert(a[0] == b[0]);
        let ta = a.drop_first();
        let tb = b.drop_first();
        assert forall|i: int, j: int| 0 <= i < j < ta.len() implies text_less(
            #[trigger] ta[i],
            #[trigger] ta[j],
        ) by {
            assert(ta[i] == a[i + 1] && ta[j] == a[j + 1]);
        }
        assert forall|i: int, j: int| 0 <= i < j < tb.len() implies text_less(
            #[trigger] tb[i],
            #[trigger] tb[j],
        ) by {
            assert(tb[i] == b[i + 1] && tb[j] == b[j + 1]);
        }
        assert forall|t: Seq<char>| ta.contains(t) <==> tb.contains(t) by {
            if ta.contains(t) {
                let i = choose|i: int| 0 <= i < ta.len() && ta[i] == t;
                assert(a[i + 1] == t);
                assert(text_less(a[0], a[i + 1]));
                assert(a.contains(t));
                assert(b.contains(t));
                let k = choose|k: int| 0 <= k < b.len() && b[k] == t;
                if k == 0 {
                    lemma_text_less_irreflexive(t);
                }
                assert(tb[k - 1] == t);
            }
            if tb.contains(t) {
                let i = choose|i: int| 0 <= i < tb.len() && tb[i] == t;
                assert(b[i + 1] == t);
                assert(text_less(b[0], b[i + 1]));
                assert(b.contains(t));
                assert(a.contains(t));
                let k = choose|k: int| 0 <= k < a.len() && a[k] == t;
                if k == 0 {
                    lemma_text_less_irreflexive(t);
                }
                assert(ta[k - 1] == t);
            }
        }
        lemma_ascending_unique(ta, tb);
        assert(a =~= seq![a[0]] + ta);
        assert(b =~= seq![b[0]] + tb);
    }
}

/// A list in ascending order with one more text put in at its place is
/// in ascending order again, and holds that text besides what it held.
pub proof fn lemma_ascending_insert(sorted: Seq<Seq<char>>, text: Seq<char>) -> (longer: Seq<
    Seq<char>,
>)
    requires
        ascending(sorted),
        !sorted.contains(text),
    ensures
        ascending(longer),
        same_texts(longer, sorted.push(text)),
    decreases sorted.len(),
{
    if sorted.len() == 0 || text_less(sorted.last(), text) {
        let longer = sorted.push(text);
        assert forall|i: int, j: int| 0 <= i < j < longer.len() implies text_less(
            #[trigger] longer[i],
            #[trigger] longer[j],
        ) by {
            if j == sorted.len() && i < sorted.len() - 1 {
                assert(text_less(sorted[i], sorted[sorted.len() - 1]));
                lemma_text_less_transitive(sorted[i], sorted.last(), text);
            }
        }
        longer
    } else {
        let last = sorted.last();
        let shorter = sorted.drop_last();
        assert(sorted.contains(last));
        lemma_text_less_total(last, text);
        assert(text_less(text, last));
        assert forall|i: int, j: int| 0 <= i < j < shorter.len() implies text_less(
            #[trigger] shorter[i],
            #[trigger] shorter[j],
        ) by {
            assert(shorter[i] == sorted[i] && shorter[j] == sorted[j]);
        }
        if shorter.contains(text) {
            let k = choose|k: int| 0 <= k < shorter.len() && shorter[k] == text;
            assert(sorted[k] == text);
        }
        let inner = lemma_ascending_insert(shorter, text);
        let longer = inner.push(last);
        assert forall|i: int, j: int| 0 <= i < j < longer.len() implies text_less(
            #[trigger] longer[i],
            #[trigger] longer[j],
        ) by {
            if j == inner.len() {
                // Whatever stands in `inner` is `text` or stood before `last`.
                assert(inner.contains(inner[i]));
                assert(shorter.push(text).contains(inner[i]));
                let k = choose|k: int|
                    0 <= k < shorter.push(text).len() && shorter.push(text)[k] == inner[i];
                if k < shorter.len() {
                    assert(shorter[k] == sorted[k]);
                    assert(text_less(sorted[k], sorted[sorted.len() - 1]));
                }
            }
        }
        assert forall|t: Seq<char>| longer.contains(t) <==> sorted.push(text).contains(t) by {
            if longer.contains(t) {
                let k = choose|k: int| 0 <= k < longer.len() && longer[k] == t;
                if k == inner.len() {
                    assert(sorted.push(text)[sorted.len() - 1] == t);
                } else {
                    assert(inner[k] == t);
                    assert(inner.contains(t));
                    assert(shorter.push(text).contains(t));
                    let w = choose|w: int|
                        0 <= w < shorter.push(text).len() && shorter.push(text)[w] == t;
                    if w < shorter.len() {
                        assert(sorted.push(text)[w] == t);
                    } else {
                        assert(sorted.push(text)[sorted.len() as int] == t);
                    }
                }
            }
            if sorted.push(text).contains(t) {
                let w = choose|w: int|
                    0 <= w < sorted.push(text).len() && sorted.push(text)[w] == t;
                if w == sorted.len() {
                    assert(shorter.push(text)[shorter.len() as int] == t);
                    assert(shorter.push(text).contains(t));
                    assert(inner.contains(t));
                    let k = choose|k: int| 0 <= k < inner.len() && inner[k] == t;
                    assert(longer[k] == t);
                } else if w == sorted.len() - 1 {
                    assert(longer[inner.len() as int] == t);
                } else {
                    assert(shorter.push(text)[w] == t);
                    assert(shorter.push(text).contains(t));
                    assert(inner.contains(t));
                    let k = choose|k: int| 0 <= k < inner.len() && inner[k] == t;
                    assert(longer[k] == t);
                }
            }
        }
        longer
    }
}

/// Every list of texts can be put in ascending order with each text once.
pub proof fn lemma_canonical_exists(scopes: Seq<Seq<char>>)
    ensures
        ascending(canonical_scopes(scopes)),
        same_texts(canonical_scopes(scopes), scopes),
    decreases scopes.len(),
{
    let sorted = if scopes.len() == 0 {
        scopes
    } else {
        let before = scopes.drop_last();
        let text = scopes.last();
        lemma_canonical_exists(before);
        let inner = canonical_scopes(before);
        let sorted = if inner.contains(text) {
            inner
        } else {
            lemma_ascending_insert(inner, text)
        };
        assert forall|t: Seq<char>| sorted.contains(t) <==> scopes.contains(t) by {
            if sorted.contains(t) {
                if t == text {
                    assert(scopes[scopes.len() - 1] == t);
                } else {
                    if !inner.contains(text) {
                        assert(inner.push(text).contains(t));
                        let k = choose|k: int|
                            0 <= k < inner.push(text).len() && inner.push(text)[k] == t;
                        assert(inner[k] == t);
                    }
                    assert(inner.contains(t));
                    assert(before.contains(t));
                    let k = choose|k: int| 0 <= k < before.len() && before[k] == t;
                    assert(scopes[k] == t);
                }
            }
            if scopes.contains(t) {
                let k = choose|k: int| 0 <= k < scopes.len() && scopes[k] == t;
                if k == scopes.len() - 1 {
                    if !inner.contains(text) {
                        assert(inner.push(text)[inner.len() as int] == t);
                        assert(inner.push(text).contains(t));
                    }
                } else {
                    assert(before[k] == t);
                    assert(before.contains(t));
                    assert(inner.contains(t));
                    if !inner.contains(text) {
                        let w = choose|w: int| 0 <= w < inner.len() && inner[w] == t;
                        assert(inner.push(text)[w] == t);
                        assert(inner.push(text).contains(t));
                    }
                }
            }
        }
        sorted
    };
    assert(ascending(sorted) && same_texts(sorted, scopes));
}

/// The key of a list of scopes depends on which scopes the list holds,
/// not on their order and not on how often each is named.
pub proof fn law_key_ignores_order_and_repeats(a: Seq<Seq<char>>, b: Seq<Seq<char>>)
    requires
        same_texts(a, b),
    ensures
        canonical_scopes(a) == canonical_scopes(b),
        scopes_key_text(a) == scopes_key_text(b),
        entry_key_text(a) == entry_key_text(b),
{
    lemma_canonical_exists(a);
    lemma_canonical_exists(b);
    lemma_ascending_unique(canonical_scopes(a), canonical_scopes(b));
}

/// Computes the SHA-256 digest of `data` with `sha2::Sha256::digest`. The
/// digest is named, not spelled out; its length, 32 bytes, is that of every
/// SHA-256 digest.
#[verifier::external_body]
fn sha256(data: &[u8]) -> (digest: Vec<u8>)
    ensures
        digest@ == sha256_digest(data@),
        digest.len() == 32,
{
    <sha2::Sha256 as sha2::Digest>::digest(data).to_vec()
}

/// Encodes `data` with `base64::engine::general_purpose::URL_SAFE_NO_PAD`,
/// through `base64::Engine::encode`. The result is named, not spelled out;
/// what is claimed besides is its length, which the encoder computes from
/// the length of the input alone, and that it is written in the alphabet
/// for URLs. The encoder gives up on inputs whose encoded length does not
/// fit into the machine's integers; those of at most 1024 bytes are far
/// from that.
#[verifier::external_body]
fn base64_url(data: &Vec<u8>) -> (encoded: String)
    requires
        data.len() <= 1024,
    ensures
        encoded@ == base64_url_no_pad(data@),
        encoded@.len() == base64_len(data@.len()),
        forall|i: int| 0 <= i < encoded@.len() ==> is_base64_url_char(#[trigger] encoded@[i]),
{
    base64::Engine::encode(&base64::engine::general_purpose::URL_SAFE_NO_PAD, data)
}

/// Whether `a` comes before `b`.
fn less(a: &str, b: &str) -> (before: bool)
    ensures
        before == text_less(a@, b@),
{
    let n = a.unicode_len();
    let m = b.unicode_len();
    let mut i: usize = 0;
    proof {
        assert(a@.skip(0) =~= a@);
        assert(b@.skip(0) =~= b@);
    }
    while i < n && i < m
        invariant
            n == a@.len(),
            m == b@.len(),
            i <= n,
            i <= m,
            text_less(a@, b@) == text_less(a@.skip(i as int), b@.skip(i as int)),
        decreases n - i,
    {
        let x = a.get_char(i);
        let y = b.get_char(i);
        proof {
            let ra = a@.skip(i as int);
            let rb = b@.skip(i as int);
            assert(ra[0] == x && rb[0] == y);
            assert(ra.drop_first() =~= a@.skip(i as int + 1));
            assert(rb.drop_first() =~= b@.skip(i as int + 1));
        }
        if x != y {
            return x < y;
        }
        i += 1;
    }
    proof {
        assert(a@.skip(i as int).len() == n - i);
        assert(b@.skip(i as int).len() == m - i);
    }
    i < m
}

/// The texts of `scopes` in ascending order, each once.
fn sorted_scopes(scopes: &[&str]) -> (sorted: Vec<String>)
    ensures
        ascending(sorted.deep_view()),
        same_texts(sorted.deep_view(), texts_of(scopes@)),
{
    let mut sorted: Vec<String> = Vec::new();
    let mut i: usize = 0;
    while i < scopes.len()
        invariant
            i <= scopes.len(),
            ascending(sorted.deep_view()),
            same_texts(sorted.deep_view(), texts_of(scopes@).take(i as int)),
        decreases scopes.len() - i,
    {
        let scope: &str = scopes[i];
        let ghost seen = texts_of(scopes@).take(i as int);
        let ghost before = sorted.deep_view();
        let mut at: usize = 0;
        while at < sorted.len() && less(sorted[at].as_str(), scope)
            invariant
                at <= sorted.len(),
                sorted.deep_view() == before,
                forall|k: int| 0 <= k < at ==> text_less(#[trigger] before[k], scope@),
            decreases sorted.len() - at,
        {
            proof {
                assert(before[at as int] == sorted@[at as int]@);
            }
            at += 1;
        }
        let known = at < sorted.len() && crate::text::str_eq(sorted[at].as_str(), scope);
        proof {
            assert(texts_of(scopes@)[i as int] == scope@);
            assert(texts_of(scopes@).take(i as int + 1) =~= seen.push(scope@));
            if at < sorted.len() {
                assert(before[at as int] == sorted@[at as int]@);
            }
        }
        if !known {
            sorted.insert(at, scope.to_owned());
            proof {
                let after = sorted.deep_view();
                assert(after =~= before.insert(at as int, scope@));
                assert forall|x: int, y: int| 0 <= x < y < after.len() implies text_less(
                    #[trigger] after[x],
                    #[trigger] after[y],
                ) by {
                    if y < at {
                        assert(after[x] == before[x] && after[y] == before[y]);
                    } else if y == at {
                        assert(after[x] == before[x]);
                    } else if x == at {
                        // `scope` comes before what stood at `at`, and
                        // so before all that follows.
                        assert(after[y] == before[y - 1]);
                        lemma_text_less_total(before[at as int], scope@);
                        if y - 1 > at {
                            assert(text_less(before[at as int], before[y - 1]));
                            lemma_text_less_transitive(scope@, before[at as int], before[y - 1]);
                        }
                    } else if x < at {
                        assert(after[x] == before[x] && after[y] == before[y - 1]);
                        assert(text_less(before[x], before[y - 1]));
                    } else {
                        assert(after[x] == before[x - 1] && after[y] == before[y - 1]);
                    }
                }
                assert forall|t: Seq<char>| after.contains(t) <==> seen.push(scope@).contains(
                    t,
                ) by {
                    if after.contains(t) {
                        let k = choose|k: int| 0 <= k < after.len() && after[k] == t;
                        if k == at {
                            assert(seen.push(scope@)[seen.len() as int] == t);
                        } else {
                            let from = if k < at {
                                k
                            } else {
                                k - 1
                            };
                            assert(before[from] == t);
                            assert(before.contains(t));
                            assert(seen.contains(t));
                            let w = choose|w: int| 0 <= w < seen.len() && seen[w] == t;
                            assert(seen.push(scope@)[w] == t);
                        }
                    }
                    if seen.push(scope@).contains(t) {
                        let w = choose|w: int| 0 <= w < seen.push(scope@).len() && seen.push(
                            scope@,
                        )[w] == t;
                        if w == seen.len() {
                            assert(after[at as int] == t);
                        } else {
                            assert(seen[w] == t);
                            assert(seen.contains(t));
                            assert(before.contains(t));
                            let k = choose|k: int| 0 <= k < before.len() && before[k] == t;
                            let to = if k < at {
                                k
                            } else {
                                k + 1
                            };
                            assert(after[to] == t);
                        }
                    }
                }
            }
        } else {
            proof {
                assert forall|t: Seq<char>| before.contains(t) <==> seen.push(scope@).contains(
                    t,
                ) by {
                    if before.contains(t) {
                        assert(seen.contains(t));
                        let w = choose|w: int| 0 <= w < seen.len() && seen[w] == t;
                        assert(seen.push(scope@)[w] == t);
                    }
                    if seen.push(scope@).contains(t) {
                        let w = choose|w: int| 0 <= w < seen.push(scope@).len() && seen.push(
                            scope@,
                        )[w] == t;
                        if w == seen.len() {
                            assert(before[at as int] == t);
                        } else {
                            assert(seen[w] == t);
                            assert(seen.contains(t));
                        }
                    }
                }
            }
        }
        i += 1;
    }
    proof {
        assert(texts_of(scopes@).take(scopes.len() as int) =~= texts_of(scopes@));
    }
    sorted
}

impl FileTokenStorage {
    /// A store in the file at `path`.
    pub fn new(path: String) -> (storage: Self)
        ensures
            storage.path() == path@,
    {
        FileTokenStorage { path }
    }

    /// Where the file of the store lies.
    pub closed spec fn path(&self) -> Seq<char> {
        self.path@
    }

    /// Where the file of the store lies.
    pub fn file_path(&self) -> (path: &str)
        ensures
            path@ == self.path(),
    {
        self.path.as_str()
    }

    /// The key of a list of scopes; it does not depend on the order of the
    /// scopes nor on repeats.
    pub fn scopes_key(scopes: &[&str]) -> (key: String)
        ensures
            key@ == scopes_key_text(texts_of(scopes@)),
            key@.len() == scopes_key_len(),
            forall|i: int| 0 <= i < key@.len() ==> is_base64_url_char(#[trigger] key@[i]),
    {
        let sorted = sorted_scopes(scopes);
        proof {
            let canonical = canonical_scopes(texts_of(scopes@));
            assert(ascending(canonical) && same_texts(canonical, texts_of(scopes@)));
            lemma_ascending_unique(sorted.deep_view(), canonical);
        }
        let line = join(sorted.as_slice(), " ");
        let digest = sha256(line.as_str().as_bytes());
        base64_url(&digest)
    }

    /// The key under which the token for a list of scopes is kept.
    pub fn entry_key(scopes: &[&str]) -> (key: String)
        ensures
            key@ == entry_key_text(texts_of(scopes@)),
            key@.len() == "oauth_token:"@.len() + scopes_key_len(),
            forall|i: int|
                "oauth_token:"@.len() <= i < key@.len() ==> is_base64_url_char(#[trigger] key@[i]),
    {
        let mut out = "oauth_token:".to_owned();
        let hash = Self::scopes_key(scopes);
        out.append(hash.as_str());
        proof {
            let prefix = "oauth_token:"@;
            assert forall|i: int| prefix.len() <= i < out@.len() implies is_base64_url_char(
                #[trigger] out@[i],
            ) by {
                assert(out@[i] == hash@[i - prefix.len()]);
            }
        }
        out
    }
}

} // verus!
