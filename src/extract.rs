use vstd::prelude::*;

verus! {

/// Why an extraction could not be carried out.
#[derive(Debug, Clone, Copy, PartialEq, Eq, Structural)]
pub enum ExtractError {
    /// Tail extraction was asked of a sequence with no elements.
    EmptyContainer,
    /// An index was not below the sequence's length.
    IndexOutOfBounds,
}

/// What tail extraction yields on a sequence `s`.
pub open spec fn tail_result<T>(s: Seq<T>) -> Result<T, ExtractError> {
    if s.len() == 0 {
        Err(ExtractError::EmptyContainer)
    } else {
        Ok(s.last())
    }
}

/// Removes and returns the last element. The remaining elements keep their
/// order; an empty sequence is left as it is.
pub fn pop_tail<T>(v: &mut Vec<T>) -> (r: Result<T, ExtractError>)
    ensures
        r == tail_result(old(v)@),
        old(v)@.len() == 0 ==> final(v)@ == old(v)@,
        old(v)@.len() > 0 ==> final(v)@ == old(v)@.drop_last(),
{
    match v.pop() {
        Some(x) => Ok(x),
        None => Err(ExtractError::EmptyContainer),
    }
}

/// The sequence left by swap-and-extract at `i`: the last element moves into
/// slot `i`, then the tail slot is dropped.
pub open spec fn swap_extracted<T>(s: Seq<T>, i: int) -> Seq<T> {
    s.update(i, s.last()).drop_last()
}

/// Removes and returns the element at `i` by moving the last element into its
/// slot. Every other element keeps its position.
pub fn swap_extract<T>(v: &mut Vec<T>, i: usize) -> (r: Result<T, ExtractError>)
    ensures
        i < old(v)@.len() ==> r == Ok::<T, ExtractError>(old(v)@[i as int]) && final(v)@
            == swap_extracted(old(v)@, i as int),
        i < old(v)@.len() ==> final(v)@.len() == old(v)@.len() - 1,
        i + 1 < old(v)@.len() ==> final(v)@[i as int] == old(v)@.last(),
        i + 1 == old(v)@.len() ==> final(v)@ == old(v)@.drop_last(),
        forall|j: int|
            0 <= j < old(v)@.len() - 1 && j != i ==> #[trigger] final(v)@[j] == old(v)@[j],
        i >= old(v)@.len() ==> r == Err::<T, ExtractError>(ExtractError::IndexOutOfBounds)
            && final(v)@ == old(v)@,
{
    if i >= v.len() {
        return Err(ExtractError::IndexOutOfBounds);
    }
    let x = v.swap_remove(i);
    proof {
        if i + 1 == old(v)@.len() {
            assert(final(v)@ =~= old(v)@.drop_last());
        }
    }
    Ok(x)
}

/// Puts `value` into slot `i` and returns what the slot held before. The
/// length and every other slot are unchanged.
pub fn replace_at<T>(v: &mut Vec<T>, i: usize, value: T) -> (r: Result<T, ExtractError>)
    ensures
        i < old(v)@.len() ==> r == Ok::<T, ExtractError>(old(v)@[i as int]) && final(v)@
            == old(v)@.update(i as int, value),
        i < old(v)@.len() ==> final(v)@.len() == old(v)@.len() && final(v)@[i as int] == value,
        i >= old(v)@.len() ==> r == Err::<T, ExtractError>(ExtractError::IndexOutOfBounds)
            && final(v)@ == old(v)@,
{
    if i >= v.len() {
        return Err(ExtractError::IndexOutOfBounds);
    }
    let mut held = value;
    std::mem::swap(&mut v[i], &mut held);
    Ok(held)
}

/// Empties slot `i` of a sequence of optional values, returning what it held.
/// The slot stays in place, holding `None`.
pub fn take_at<T>(v: &mut Vec<Option<T>>, i: usize) -> (r: Result<Option<T>, ExtractError>)
    ensures
        i < old(v)@.len() ==> r == Ok::<Option<T>, ExtractError>(old(v)@[i as int])
            && final(v)@ == old(v)@.update(i as int, None),
        i >= old(v)@.len() ==> r == Err::<Option<T>, ExtractError>(
            ExtractError::IndexOutOfBounds,
        ) && final(v)@ == old(v)@,
{
    if i >= v.len() {
        return Err(ExtractError::IndexOutOfBounds);
    }
    Ok(v[i].take())
}

/// Tail extraction right after appending `x` yields `x` and gives back the
/// sequence as it stood before the append.
pub proof fn lemma_tail_after_append<T>(s: Seq<T>, x: T)
    ensures
        tail_result(s.push(x)) == Ok::<T, ExtractError>(x),
        s.push(x).drop_last() == s,
{
    assert(s.push(x).drop_last() =~= s);
}

} // verus!
