//! What it means for a reader to agree with the format, and for bytes to stand
//! at a place in a stream.
use crate::cursor::ByteCursor;
use crate::TinyVgParseError;
use vstd::prelude::*;

verus! {

/// A read that agrees with the format: the format's reading of the bytes at the
/// cursor is `expected`, a value and the position behind it. Where there is one,
/// the read returns the value and leaves the cursor behind it, never further
/// back than it was; where there is none, the read fails with `failure` and
/// leaves the cursor where it was.
pub open spec fn reads<T>(
    before: ByteCursor,
    after: ByteCursor,
    r: Result<T, TinyVgParseError>,
    expected: Option<(T, int)>,
    failure: TinyVgParseError,
) -> bool {
    &&& after.data@ == before.data@
    &&& match r {
        Ok(v) => expected == Some((v, after.position as int)) && before.position
            <= after.position,
        Err(e) => expected is None && e == failure && after.position == before.position,
    }
}

/// As `reads`, for a value that is compared through its view.
pub open spec fn reads_view<T: View>(
    before: ByteCursor,
    after: ByteCursor,
    r: Result<T, TinyVgParseError>,
    expected: Option<(T::V, int)>,
    failure: TinyVgParseError,
) -> bool {
    &&& after.data@ == before.data@
    &&& match r {
        Ok(v) => expected == Some((v@, after.position as int)) && before.position
            <= after.position,
        Err(e) => expected is None && e == failure && after.position == before.position,
    }
}

/// A write that agrees with the format: where the value can be written, the
/// write succeeds and appends `bytes`; where it cannot, the write fails with
/// `failure` and leaves the buffer as it was.
pub open spec fn writes(
    before: Seq<u8>,
    after: Seq<u8>,
    r: Result<(), TinyVgParseError>,
    encodable: bool,
    bytes: Seq<u8>,
    failure: TinyVgParseError,
) -> bool {
    match r {
        Ok(_) => encodable && after =~= before + bytes,
        Err(e) => !encodable && e == failure && after =~= before,
    }
}

/// Gives up a write: cuts the buffer back to the `mark` bytes that it held when
/// the write began, and hands the error on.
pub(crate) fn undo(out: &mut Vec<u8>, mark: usize, e: TinyVgParseError) -> (r: Result<
    (),
    TinyVgParseError,
>)
    requires
        mark <= old(out)@.len(),
    ensures
        r == Err::<(), TinyVgParseError>(e),
        final(out)@ == old(out)@.take(mark as int),
{
    out.truncate(mark);
    Err(e)
}

/// The bytes `w` stand in `data` from index `pos` on.
pub open spec fn holds_at(data: Seq<u8>, pos: int, w: Seq<u8>) -> bool {
    &&& 0 <= pos
    &&& pos + w.len() <= data.len()
    &&& data.subrange(pos, pos + w.len()) == w
}

/// Where two runs of bytes stand one behind the other, each stands at its place.
pub proof fn lemma_holds_at_concat(data: Seq<u8>, pos: int, a: Seq<u8>, b: Seq<u8>)
    requires
        holds_at(data, pos, a + b),
    ensures
        holds_at(data, pos, a),
        holds_at(data, pos + a.len(), b),
{
    let whole = data.subrange(pos, pos + (a + b).len());
    assert(data.subrange(pos, pos + a.len()) =~= whole.subrange(0, a.len() as int));
    assert(whole.subrange(0, a.len() as int) =~= a);
    assert(data.subrange(pos + a.len(), pos + a.len() + b.len()) =~= whole.subrange(
        a.len() as int,
        (a + b).len() as int,
    ));
    assert(whole.subrange(a.len() as int, (a + b).len() as int) =~= b);
}

/// A byte of a run that stands in `data` is the byte of `data` at its place.
pub proof fn lemma_holds_at_index(data: Seq<u8>, pos: int, w: Seq<u8>, i: int)
    requires
        holds_at(data, pos, w),
        0 <= i < w.len(),
    ensures
        data[pos + i] == w[i],
{
}

/// `n` items read one behind the other from `pos` on, each as `one` reads it,
/// and the position behind the last; none where one of them cannot be read.
pub open spec fn parse_n<T>(
    one: spec_fn(Seq<u8>, int) -> Option<(T, int)>,
    data: Seq<u8>,
    pos: int,
    n: nat,
) -> Option<(Seq<T>, int)>
    decreases n,
{
    if n == 0 {
        Some((Seq::empty(), pos))
    } else {
        match parse_n(one, data, pos, (n - 1) as nat) {
            Some((items, next)) => match one(data, next) {
                Some((item, end)) => Some((items.push(item), end)),
                None => None,
            },
            None => None,
        }
    }
}

/// The bytes of the items one behind the other, each as `bytes_of` writes it.
pub open spec fn concat_all<T>(bytes_of: spec_fn(T) -> Seq<u8>, items: Seq<T>) -> Seq<u8>
    decreases items.len(),
{
    if items.len() == 0 {
        Seq::empty()
    } else {
        concat_all(bytes_of, items.drop_last()) + bytes_of(items.last())
    }
}

/// Whether `accepts` holds of every item.
pub open spec fn all_of<T>(accepts: spec_fn(T) -> bool, items: Seq<T>) -> bool {
    forall|i: int| 0 <= i < items.len() ==> accepts(#[trigger] items[i])
}

/// Whether `one` reads back what `bytes_of` writes of each item that `accepts`
/// admits, wherever the bytes stand.
pub open spec fn reads_back<T>(
    one: spec_fn(Seq<u8>, int) -> Option<(T, int)>,
    bytes_of: spec_fn(T) -> Seq<u8>,
    accepts: spec_fn(T) -> bool,
) -> bool {
    forall|item: T, data: Seq<u8>, pos: int|
        accepts(item) && #[trigger] holds_at(data, pos, bytes_of(item)) ==> one(data, pos) == Some(
            (item, pos + bytes_of(item).len()),
        )
}

/// Where fewer items cannot be read, more cannot be read either.
pub proof fn lemma_parse_n_none<T>(
    one: spec_fn(Seq<u8>, int) -> Option<(T, int)>,
    data: Seq<u8>,
    pos: int,
    few: nat,
    many: nat,
)
    requires
        few <= many,
        parse_n(one, data, pos, few) is None,
    ensures
        parse_n(one, data, pos, many) is None,
    decreases many,
{
    if few < many {
        lemma_parse_n_none(one, data, pos, few, (many - 1) as nat);
    }
}

/// One more item behind those already read.
pub proof fn lemma_parse_n_step<T>(
    one: spec_fn(Seq<u8>, int) -> Option<(T, int)>,
    data: Seq<u8>,
    pos: int,
    n: nat,
)
    requires
        parse_n(one, data, pos, n) is Some,
    ensures
        parse_n(one, data, pos, n + 1) == match one(data, parse_n(one, data, pos, n).unwrap().1) {
            Some((item, end)) => Some((parse_n(one, data, pos, n).unwrap().0.push(item), end)),
            None => None,
        },
        parse_n(one, data, pos, n).unwrap().0.len() == n,
    decreases n,
{
    if n > 0 {
        lemma_parse_n_step(one, data, pos, (n - 1) as nat);
    }
}

/// The bytes of a list with one more item at its end.
pub proof fn lemma_concat_all_push<T>(bytes_of: spec_fn(T) -> Seq<u8>, items: Seq<T>, item: T)
    ensures
        concat_all(bytes_of, items.push(item)) == concat_all(bytes_of, items) + bytes_of(item),
{
    assert(items.push(item).drop_last() =~= items);
}

/// The bytes of a list are those of its first item, then those of the rest.
pub proof fn lemma_concat_all_first<T>(bytes_of: spec_fn(T) -> Seq<u8>, items: Seq<T>)
    requires
        items.len() > 0,
    ensures
        concat_all(bytes_of, items) == bytes_of(items[0]) + concat_all(
            bytes_of,
            items.drop_first(),
        ),
    decreases items.len(),
{
    if items.len() == 1 {
        let none = Seq::<T>::empty();
        assert(items.drop_last() =~= none);
        assert(concat_all(bytes_of, items) =~= bytes_of(items[0]) + concat_all(bytes_of, none));
    } else {
        let front = items.drop_last();
        let rest = items.drop_first();
        lemma_concat_all_first(bytes_of, front);
        assert(front.drop_first() =~= rest.drop_last());
    }
}

/// A list that was written is read back as it was, where each item is.
pub proof fn lemma_parse_n_round_trip<T>(
    one: spec_fn(Seq<u8>, int) -> Option<(T, int)>,
    bytes_of: spec_fn(T) -> Seq<u8>,
    accepts: spec_fn(T) -> bool,
    data: Seq<u8>,
    pos: int,
    items: Seq<T>,
)
    requires
        reads_back(one, bytes_of, accepts),
        all_of(accepts, items),
        holds_at(data, pos, concat_all(bytes_of, items)),
    ensures
        parse_n(one, data, pos, items.len()) == Some(
            (items, pos + concat_all(bytes_of, items).len()),
        ),
    decreases items.len(),
{
    if items.len() > 0 {
        let front = items.drop_last();
        let front_bytes = concat_all(bytes_of, front);
        lemma_holds_at_concat(data, pos, front_bytes, bytes_of(items.last()));
        lemma_parse_n_round_trip(one, bytes_of, accepts, data, pos, front);
    }
}

} // verus!
