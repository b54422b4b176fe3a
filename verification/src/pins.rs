//! Source pins of a discussion: the persistent and per-request document pins
//! merged into one ordered set, and the pinned documents resolved to the
//! handles of a frozen context.
use vstd::prelude::*;
use vstd::utf8::encode_utf8;
use crate::error::{CoreError, ErrorCode, fails_with};
use crate::lifecycle::MAX_PINNED_DOCUMENTS;
use crate::vocab::str_eq;

verus! {

broadcast use vstd::string::group_string_axioms;

// ------------------------------------------------------------------ ordering

/// Byte-wise lexicographic order, the order of `str`.
pub open spec fn bytes_lt(a: Seq<u8>, b: Seq<u8>) -> bool
    decreases a.len(),
{
    if a.len() == 0 {
        b.len() > 0
    } else if b.len() == 0 {
        false
    } else if a[0] != b[0] {
        a[0] < b[0]
    } else {
        bytes_lt(a.drop_first(), b.drop_first())
    }
}

/// `a` sorts before `b` as strings do.
pub open spec fn text_lt(a: Seq<char>, b: Seq<char>) -> bool {
    bytes_lt(encode_utf8(a), encode_utf8(b))
}

proof fn lemma_bytes_lt_irreflexive(a: Seq<u8>)
    ensures
        !bytes_lt(a, a),
    decreases a.len(),
{
    if a.len() > 0 {
        lemma_bytes_lt_irreflexive(a.drop_first());
    }
}

proof fn lemma_bytes_lt_total(a: Seq<u8>, b: Seq<u8>)
    ensures
        a == b || bytes_lt(a, b) || bytes_lt(b, a),
    decreases a.len(),
{
    if a.len() > 0 && b.len() > 0 && a[0] == b[0] {
        lemma_bytes_lt_total(a.drop_first(), b.drop_first());
        if a.drop_first() == b.drop_first() {
            assert(a =~= seq![a[0]] + a.drop_first());
            assert(b =~= seq![b[0]] + b.drop_first());
        }
    } else if a.len() == 0 && b.len() == 0 {
        assert(a =~= b);
    }
}

proof fn lemma_bytes_lt_asymmetric(a: Seq<u8>, b: Seq<u8>)
    ensures
        !(bytes_lt(a, b) && bytes_lt(b, a)),
    decreases a.len(),
{
    if a.len() > 0 && b.len() > 0 && a[0] == b[0] {
        lemma_bytes_lt_asymmetric(a.drop_first(), b.drop_first());
    }
}

proof fn lemma_bytes_lt_transitive(a: Seq<u8>, b: Seq<u8>, c: Seq<u8>)
    ensures
        bytes_lt(a, b) && bytes_lt(b, c) ==> bytes_lt(a, c),
    decreases a.len(),
{
    if a.len() > 0 && b.len() > 0 && c.len() > 0 {
        lemma_bytes_lt_transitive(a.drop_first(), b.drop_first(), c.drop_first());
    }
}

proof fn lemma_text_order(a: Seq<char>, b: Seq<char>, c: Seq<char>)
    ensures
        !text_lt(a, a),
        a == b || text_lt(a, b) || text_lt(b, a),
        !(text_lt(a, b) && text_lt(b, a)),
        text_lt(a, b) && text_lt(b, c) ==> text_lt(a, c),
{
    lemma_bytes_lt_irreflexive(encode_utf8(a));
    lemma_bytes_lt_total(encode_utf8(a), encode_utf8(b));
    lemma_bytes_lt_asymmetric(encode_utf8(a), encode_utf8(b));
    lemma_bytes_lt_transitive(encode_utf8(a), encode_utf8(b), encode_utf8(c));
    vstd::utf8::encode_utf8_decode_utf8(a);
    vstd::utf8::encode_utf8_decode_utf8(b);
}

/// Whether `a` sorts before `b`.
pub fn text_less(a: &str, b: &str) -> (r: bool)
    ensures
        r == text_lt(a@, b@),
{
    let x = a.as_bytes();
    let y = b.as_bytes();
    let ghost xs = x@;
    let ghost ys = y@;
    let mut i: usize = 0;
    assert(xs.skip(0) =~= xs);
    assert(ys.skip(0) =~= ys);
    while i < x.len() && i < y.len()
        invariant
            xs == x@,
            ys == y@,
            xs == encode_utf8(a@),
            ys == encode_utf8(b@),
            i <= xs.len(),
            i <= ys.len(),
            bytes_lt(xs, ys) == bytes_lt(xs.skip(i as int), ys.skip(i as int)),
        decreases xs.len() - i,
    {
        assert(xs.skip(i as int)[0] == xs[i as int]);
        assert(ys.skip(i as int)[0] == ys[i as int]);
        if x[i] != y[i] {
            return x[i] < y[i];
        }
        assert(xs.skip(i as int).drop_first() =~= xs.skip(i + 1));
        assert(ys.skip(i as int).drop_first() =~= ys.skip(i + 1));
        i += 1;
    }
    i == x.len() && i < y.len()
}

// ------------------------------------------------------------------- merging

/// The text of each string.
pub open spec fn texts(v: Seq<String>) -> Seq<Seq<char>> {
    v.map_values(|s: String| s@)
}

/// Strictly increasing as strings sort, hence free of repeats.
pub open spec fn strictly_sorted(v: Seq<Seq<char>>) -> bool {
    forall|i: int, j: int| 0 <= i < j < v.len() ==> text_lt(#[trigger] v[i], #[trigger] v[j])
}

proof fn lemma_sorted_no_duplicates(v: Seq<Seq<char>>)
    requires
        strictly_sorted(v),
    ensures
        v.no_duplicates(),
{
    assert forall|i: int, j: int| 0 <= i < v.len() && 0 <= j < v.len() && i != j implies v[i] != v[j] by {
        lemma_text_order(v[i], v[j], v[j]);
        if i < j {
            assert(text_lt(v[i], v[j]));
        } else {
            assert(text_lt(v[j], v[i]));
        }
    }
}

/// Adds `id` to a strictly sorted list unless it is already there.
pub(crate) fn insert_sorted(v: &mut Vec<String>, id: &String)
    requires
        strictly_sorted(texts(old(v)@)),
    ensures
        strictly_sorted(texts(final(v)@)),
        texts(final(v)@).to_set() == texts(old(v)@).to_set().insert(id@),
{
    let ghost start = texts(v@);
    let n = v.len();
    let mut i: usize = 0;
    while i < n && text_less(v[i].as_str(), id.as_str())
        invariant
            n == v@.len(),
            texts(v@) == start,
            strictly_sorted(start),
            0 <= i <= n,
            forall|k: int| 0 <= k < i ==> text_lt(#[trigger] start[k], id@),
        decreases n - i,
    {
        i += 1;
    }
    if i < n && str_eq(v[i].as_str(), id.as_str()) {
        assert(start[i as int] == id@);
        assert(start.to_set().insert(id@) =~= start.to_set());
        return;
    }
    proof {
        if i < n {
            lemma_text_order(start[i as int], id@, id@);
            assert(text_lt(id@, start[i as int]));
        }
    }
    v.insert(i, id.clone());
    let ghost now = texts(v@);
    assert(now =~= start.insert(i as int, id@));
    assert forall|a: int, b: int| 0 <= a < b < now.len() implies text_lt(#[trigger] now[a], #[trigger] now[b]) by {
        if b < i {
            assert(now[a] == start[a] && now[b] == start[b]);
        } else if b == i {
            assert(now[a] == start[a]);
        } else if a < i {
            assert(now[a] == start[a] && now[b] == start[b - 1]);
            lemma_text_order(start[a], id@, start[i as int]);
            lemma_text_order(start[a], start[i as int], start[b - 1]);
            if b - 1 > i {
                assert(text_lt(start[i as int], start[b - 1]));
            }
        } else if a == i {
            assert(now[b] == start[b - 1]);
            lemma_text_order(id@, start[i as int], start[b - 1]);
            if b - 1 > i {
                assert(text_lt(start[i as int], start[b - 1]));
            }
        } else {
            assert(now[a] == start[a - 1] && now[b] == start[b - 1]);
        }
    }
    assert forall|x: Seq<char>| now.to_set().contains(x) <==> start.to_set().insert(id@).contains(x) by {
        if now.contains(x) {
            let k = choose|k: int| 0 <= k < now.len() && now[k] == x;
            if k < i {
                assert(start[k] == x);
            } else if k > i {
                assert(start[k - 1] == x);
            }
        }
        if start.contains(x) {
            let k = choose|k: int| 0 <= k < start.len() && start[k] == x;
            if k < i {
                assert(now[k] == x);
            } else {
                assert(now[k + 1] == x);
            }
        }
        if x == id@ {
            assert(now[i as int] == x);
        }
    }
    assert(now.to_set() =~= start.to_set().insert(id@));
}

pub open spec fn merge_error(persistent: Seq<String>, transient: Seq<String>) -> Option<ErrorCode> {
    if !texts(transient).no_duplicates() {
        Some(ErrorCode::InvalidRequest)
    } else if (texts(persistent) + texts(transient)).to_set().len() > MAX_PINNED_DOCUMENTS {
        Some(ErrorCode::InvalidRequest)
    } else {
        None
    }
}

/// Merges a document's persistent pins with a request's own pins into one
/// sorted list without repeats. A request may not pin a document twice, and
/// the merged list holds at most 64 documents.
pub fn merge_pinned_document_ids(persistent: &Vec<String>, transient: &Vec<String>) -> (r: Result<Vec<String>, CoreError>)
    ensures
        match merge_error(persistent@, transient@) {
            Some(code) => fails_with(r, code),
            None => r matches Ok(v) && strictly_sorted(texts(v@))
                && texts(v@).to_set() == (texts(persistent@) + texts(transient@)).to_set(),
        },
{
    let m = transient.len();
    let mut i: usize = 0;
    while i < m
        invariant
            m == transient@.len(),
            0 <= i <= m,
            forall|a: int, b: int| 0 <= a < b < i ==> (#[trigger] transient@[a])@ != (#[trigger] transient@[b])@,
        decreases m - i,
    {
        let mut k: usize = 0;
        while k < i
            invariant
                m == transient@.len(),
                0 <= k <= i < m,
                forall|a: int| 0 <= a < k ==> (#[trigger] transient@[a])@ != transient@[i as int]@,
            decreases i - k,
        {
            if str_eq(transient[k].as_str(), transient[i].as_str()) {
                proof {
                    let t = texts(transient@);
                    assert(t[k as int] == t[i as int]);
                }
                return Err(CoreError::new(ErrorCode::InvalidRequest, "A transient source document was pinned more than once."));
            }
            k += 1;
        }
        i += 1;
    }
    assert(texts(transient@).no_duplicates()) by {
        let t = texts(transient@);
        assert forall|a: int, b: int| 0 <= a < t.len() && 0 <= b < t.len() && a != b implies t[a] != t[b] by {
            if a < b {
                assert(transient@[a]@ != transient@[b]@);
            } else {
                assert(transient@[b]@ != transient@[a]@);
            }
        }
    }
    let ghost all = texts(persistent@) + texts(transient@);
    let mut merged: Vec<String> = Vec::new();
    let p = persistent.len();
    let mut j: usize = 0;
    assert(texts(merged@).to_set() =~= Set::<Seq<char>>::empty());
    while j < p
        invariant
            p == persistent@.len(),
            0 <= j <= p,
            strictly_sorted(texts(merged@)),
            texts(merged@).to_set() == texts(persistent@).take(j as int).to_set(),
        decreases p - j,
    {
        insert_sorted(&mut merged, &persistent[j]);
        assert(texts(persistent@).take(j + 1) =~= texts(persistent@).take(j as int).push(persistent@[j as int]@));
        proof {
            texts(persistent@).take(j as int).lemma_push_to_set_commute(persistent@[j as int]@);
        }
        j += 1;
    }
    assert(texts(persistent@).take(p as int) =~= texts(persistent@));
    let mut j: usize = 0;
    while j < m
        invariant
            m == transient@.len(),
            0 <= j <= m,
            strictly_sorted(texts(merged@)),
            texts(merged@).to_set() == texts(persistent@).to_set() + texts(transient@).take(j as int).to_set(),
        decreases m - j,
    {
        insert_sorted(&mut merged, &transient[j]);
        assert(texts(transient@).take(j + 1) =~= texts(transient@).take(j as int).push(transient@[j as int]@));
        proof {
            texts(transient@).take(j as int).lemma_push_to_set_commute(transient@[j as int]@);
        }
        assert(texts(merged@).to_set() =~= texts(persistent@).to_set() + texts(transient@).take(j + 1).to_set());
        j += 1;
    }
    assert(texts(transient@).take(m as int) =~= texts(transient@));
    assert(all.to_set() =~= texts(persistent@).to_set() + texts(transient@).to_set()) by {
        assert forall|x: Seq<char>| all.contains(x) <==> (texts(persistent@).contains(x) || texts(transient@).contains(x)) by {
            let pl = texts(persistent@).len();
            if all.contains(x) {
                let k = choose|k: int| 0 <= k < all.len() && all[k] == x;
                if k < pl {
                    assert(texts(persistent@)[k] == x);
                } else {
                    assert(texts(transient@)[k - pl] == x);
                }
            }
            if texts(persistent@).contains(x) {
                let k = choose|k: int| 0 <= k < texts(persistent@).len() && texts(persistent@)[k] == x;
                assert(all[k] == x);
            }
            if texts(transient@).contains(x) {
                let k = choose|k: int| 0 <= k < texts(transient@).len() && texts(transient@)[k] == x;
                assert(all[pl + k] == x);
            }
        }
    }
    proof {
        lemma_sorted_no_duplicates(texts(merged@));
        texts(merged@).unique_seq_to_set();
    }
    if merged.len() > MAX_PINNED_DOCUMENTS {
        return Err(CoreError::new(ErrorCode::InvalidRequest, "A discussion may use at most 64 source documents after persistent pins are merged."));
    }
    Ok(merged)
}


// ----------------------------------------------------------------- handles

/// One source of a frozen context: the document it reads, the body it
/// froze, its handle, and whether it is the context's target.
#[derive(Debug)]
pub struct FrozenSource {
    pub document_id: String,
    pub body_hash: String,
    pub handle: String,
    pub is_target: bool,
}

/// The handle of the first frozen source that reads `id`.
pub open spec fn handle_for(sources: Seq<FrozenSource>, id: Seq<char>) -> Option<Seq<char>>
    decreases sources.len(),
{
    if sources.len() == 0 {
        None
    } else if sources[0].document_id@ == id {
        Some(sources[0].handle@)
    } else {
        handle_for(sources.drop_first(), id)
    }
}

/// The error resolving pin `i` meets once every earlier pin resolved.
pub open spec fn pin_error(sources: Seq<FrozenSource>, pinned: Seq<String>, i: int) -> Option<ErrorCode> {
    match handle_for(sources, pinned[i]@) {
        None => Some(ErrorCode::SourceNotFound),
        Some(h) => if exists|j: int| 0 <= j < i && handle_for(sources, (#[trigger] pinned[j])@) == Some(h) {
            Some(ErrorCode::InvalidRequest)
        } else {
            None
        },
    }
}

fn find_handle(sources: &Vec<FrozenSource>, id: &str) -> (r: Option<String>)
    ensures
        match r { Some(h) => Some(h@), None => None::<Seq<char>> } == handle_for(sources@, id@),
{
    let n = sources.len();
    let mut k: usize = 0;
    assert(sources@.skip(0) =~= sources@);
    while k < n
        invariant
            n == sources@.len(),
            0 <= k <= n,
            handle_for(sources@, id@) == handle_for(sources@.skip(k as int), id@),
        decreases n - k,
    {
        assert(sources@.skip(k as int)[0] == sources@[k as int]);
        assert(sources@.skip(k as int).drop_first() =~= sources@.skip(k + 1));
        if str_eq(sources[k].document_id.as_str(), id) {
            return Some(sources[k].handle.clone());
        }
        k += 1;
    }
    None
}

/// Resolves each pinned document to the handle of the frozen source that
/// reads it, in pin order. Every pin must be in the frozen context, and no
/// source may be pinned twice.
pub fn resolve_pinned_handles(sources: &Vec<FrozenSource>, pinned: &Vec<String>) -> (r: Result<Vec<String>, CoreError>)
    ensures
        r is Ok <==> forall|i: int| 0 <= i < pinned@.len() ==> pin_error(sources@, pinned@, i) is None,
        r matches Ok(v) ==> v@.len() == pinned@.len() && forall|i: int| 0 <= i < pinned@.len()
            ==> Some((#[trigger] v@[i])@) == handle_for(sources@, pinned@[i]@),
        r matches Err(e) ==> exists|i: int| 0 <= i < pinned@.len()
            && (forall|j: int| 0 <= j < i ==> pin_error(sources@, pinned@, j) is None)
            && pin_error(sources@, pinned@, i) == Some(e.code),
{
    let mut handles: Vec<String> = Vec::new();
    let n = pinned.len();
    let mut i: usize = 0;
    assert(sources@.skip(0) =~= sources@);
    while i < n
        invariant
            n == pinned@.len(),
            0 <= i <= n,
            handles@.len() == i,
            forall|j: int| 0 <= j < i ==> Some((#[trigger] handles@[j])@) == handle_for(sources@, pinned@[j]@),
            forall|j: int| 0 <= j < i ==> pin_error(sources@, pinned@, j) is None,
        decreases n - i,
    {
        let handle = match find_handle(sources, pinned[i].as_str()) {
            Some(h) => h,
            None => {
                assert(pin_error(sources@, pinned@, i as int) == Some(ErrorCode::SourceNotFound));
                return Err(CoreError::new(ErrorCode::SourceNotFound, "A pinned document is not in the frozen context."));
            },
        };
        let mut k: usize = 0;
        while k < i
            invariant
                n == pinned@.len(),
                0 <= k <= i < n,
                handles@.len() == i,
                forall|j: int| 0 <= j < i ==> Some((#[trigger] handles@[j])@) == handle_for(sources@, pinned@[j]@),
                forall|j: int| 0 <= j < k ==> (#[trigger] handles@[j])@ != handle@,
                forall|j: int| 0 <= j < i ==> pin_error(sources@, pinned@, j) is None,
                handle_for(sources@, pinned@[i as int]@) == Some(handle@),
            decreases i - k,
        {
            if str_eq(handles[k].as_str(), handle.as_str()) {
                assert(handle_for(sources@, pinned@[i as int]@) == Some(handle@));
                assert(handle_for(sources@, pinned@[k as int]@) == Some(handle@));
                assert(exists|j: int| 0 <= j < i && handle_for(sources@, (#[trigger] pinned@[j])@) == Some(handle@));
                assert(pin_error(sources@, pinned@, i as int) == Some(ErrorCode::InvalidRequest));
                return Err(CoreError::new(ErrorCode::InvalidRequest, "A document was pinned more than once."));
            }
            k += 1;
        }
        assert(pin_error(sources@, pinned@, i as int) is None) by {
            if exists|j: int| 0 <= j < i && handle_for(sources@, (#[trigger] pinned@[j])@) == Some(handle@) {
                let j = choose|j: int| 0 <= j < i && handle_for(sources@, (#[trigger] pinned@[j])@) == Some(handle@);
                assert(handles@[j]@ != handle@);
            }
        }
        handles.push(handle);
        i += 1;
    }
    Ok(handles)
}


// ---------------------------------------------------------------------- laws

/// The merged pin list depends only on which documents are pinned, not on
/// the order or the split between persistent and request pins: two strictly
/// sorted lists of the same documents are the same list.
pub proof fn law_merged_pins_are_canonical(a: Seq<Seq<char>>, b: Seq<Seq<char>>)
    requires
        strictly_sorted(a),
        strictly_sorted(b),
        a.to_set() == b.to_set(),
    ensures
        a == b,
    decreases a.len(),
{
    if a.len() == 0 {
        if b.len() > 0 {
            assert(a.to_set().contains(b[0]));
        }
        assert(a =~= b);
    } else {
        assert(b.to_set().contains(a[0]));
        assert(b.len() > 0);
        assert(a.to_set().contains(b[0]));
        let m = choose|m: int| 0 <= m < a.len() && a[m] == b[0];
        let k = choose|k: int| 0 <= k < b.len() && b[k] == a[0];
        if a[0] != b[0] {
            assert(m > 0 && k > 0);
            assert(text_lt(a[0], a[m]));
            assert(text_lt(b[0], b[k]));
            lemma_text_order(a[0], b[0], b[0]);
            assert(false);
        }
        let ar = a.drop_first();
        let br = b.drop_first();
        assert(strictly_sorted(ar)) by {
            assert forall|i: int, j: int| 0 <= i < j < ar.len() implies text_lt(#[trigger] ar[i], #[trigger] ar[j]) by {
                assert(ar[i] == a[i + 1] && ar[j] == a[j + 1]);
            }
        }
        assert(strictly_sorted(br)) by {
            assert forall|i: int, j: int| 0 <= i < j < br.len() implies text_lt(#[trigger] br[i], #[trigger] br[j]) by {
                assert(br[i] == b[i + 1] && br[j] == b[j + 1]);
            }
        }
        assert(ar.to_set() =~= br.to_set()) by {
            assert forall|x: Seq<char>| ar.contains(x) <==> br.contains(x) by {
                if ar.contains(x) {
                    let i = choose|i: int| 0 <= i < ar.len() && ar[i] == x;
                    assert(a[i + 1] == x);
                    assert(text_lt(a[0], x));
                    assert(b.to_set().contains(x));
                    let j = choose|j: int| 0 <= j < b.len() && b[j] == x;
                    lemma_text_order(x, x, x);
                    assert(j != 0);
                    assert(br[j - 1] == x);
                }
                if br.contains(x) {
                    let i = choose|i: int| 0 <= i < br.len() && br[i] == x;
                    assert(b[i + 1] == x);
                    assert(text_lt(b[0], x));
                    assert(a.to_set().contains(x));
                    let j = choose|j: int| 0 <= j < a.len() && a[j] == x;
                    lemma_text_order(x, x, x);
                    assert(j != 0);
                    assert(ar[j - 1] == x);
                }
            }
        }
        law_merged_pins_are_canonical(ar, br);
        assert(a =~= seq![a[0]] + ar);
        assert(b =~= seq![b[0]] + br);
    }
}

} // verus!
