use vstd::prelude::*;

verus! {

/// The two bodies a spring joins, by their index in the body table.
#[derive(Debug, Clone, Copy, PartialEq, Eq, Structural)]
pub struct ConnectionComponent {
    pub entity1: usize,
    pub entity2: usize,
}

/// What the table `slots` holds for body `e`; nothing for an index past its end.
pub open spec fn slot<T>(slots: Seq<Option<T>>, e: int) -> Option<T> {
    if 0 <= e < slots.len() {
        slots[e]
    } else {
        None
    }
}

/// The pair of what `slots` holds for both ends of `c`, when it holds
/// something for each of them.
pub open spec fn both_ends<T>(c: ConnectionComponent, slots: Seq<Option<T>>) -> Option<(T, T)> {
    match (slot(slots, c.entity1 as int), slot(slots, c.entity2 as int)) {
        (Some(first), Some(second)) => Some((first, second)),
        _ => None,
    }
}

/// Looks up one body in a table that may lack it.
fn lookup<T: Copy>(slots: &[Option<T>], e: usize) -> (r: Option<T>)
    ensures
        r == slot(slots@, e as int),
{
    if e < slots.len() {
        slots[e]
    } else {
        None
    }
}

/// The positions of both ends of a spring, or `None` when either end is gone
/// or has no position; such a spring then has no effect.
pub fn get_spring_connection_positions<T: Copy>(
    connection: &ConnectionComponent,
    positions: &[Option<T>],
) -> (r: Option<(T, T)>)
    ensures
        r == both_ends(*connection, positions@),
{
    let pos1 = lookup(positions, connection.entity1);
    let pos2 = lookup(positions, connection.entity2);
    match (pos1, pos2) {
        (Some(first), Some(second)) => Some((first, second)),
        _ => None,
    }
}

} // verus!
