use vstd::prelude::*;

verus! {

/// The contents of a table that starts empty and has each of `items`
/// appended in turn, each append adding its item at the end.
pub open spec fn appended_in_turn<T>(items: Seq<T>) -> Seq<T>
    decreases items.len(),
{
    if items.len() == 0 {
        Seq::empty()
    } else {
        appended_in_turn(items.drop_last()).push(items.last())
    }
}

/// Appending keeps order: a table built by appends from empty holds exactly
/// the appended items, in the order they came, so that its export (which
/// follows the table's order row for row) lists them in append order.
pub proof fn appends_keep_order<T>(items: Seq<T>)
    ensures
        appended_in_turn(items) == items,
    decreases items.len(),
{
    if items.len() > 0 {
        appends_keep_order(items.drop_last());
        assert(items.drop_last().push(items.last()) =~= items);
    }
}

} // verus!
