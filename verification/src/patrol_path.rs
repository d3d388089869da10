//! Paths that patrols follow.

use vstd::prelude::*;
use crate::fields::{FieldBag, FieldData, FieldMap, FieldValue, Number};
use crate::indexer::{IndexingError, ParseFields};

verus! {

/// The type name of a patrol path in the level file.
pub const PATROL_PATH_ID: &'static str = "Patrol_Path";

/// The field that holds the points of the path.
pub const PATH_FIELD: &'static str = "Path";

/// The member of a point that holds its place along x.
pub const POINT_X: &'static str = "cx";

/// The member of a point that holds its place along y.
pub const POINT_Y: &'static str = "cy";

/// One point of a path, as the numbers the level file gives for it.
#[derive(Clone, Copy, Debug, PartialEq, Eq, Structural)]
pub struct Waypoint {
    pub x: Number,
    pub y: Number,
}

/// A path for patrols: its points in the order in which the level file
/// lists them.
#[derive(Debug)]
pub struct PatrolPath {
    pub waypoints: Vec<Waypoint>,
}

impl View for PatrolPath {
    type V = Seq<Waypoint>;

    open spec fn view(&self) -> Seq<Waypoint> {
        self.waypoints@
    }
}

/// The point that one item of a path stands for. The item has to be an
/// object with the members `cx` and `cy`, both numbers: an object without
/// one of them lacks a field, anything else is of the wrong shape.
pub open spec fn spec_waypoint(item: FieldData) -> Result<Waypoint, IndexingError> {
    if !(item is Object) {
        Err(IndexingError::WrongShape)
    } else {
        match item.member(POINT_X@) {
            None => Err(IndexingError::MissingField),
            Some(FieldData::Number(x)) => match item.member(POINT_Y@) {
                None => Err(IndexingError::MissingField),
                Some(FieldData::Number(y)) => Ok(Waypoint { x, y }),
                Some(_) => Err(IndexingError::WrongShape),
            },
            Some(_) => Err(IndexingError::WrongShape),
        }
    }
}

/// The points that the items of a path stand for, in order, or the error of
/// the first item that has one.
pub open spec fn spec_waypoints(items: Seq<FieldData>) -> Result<Seq<Waypoint>, IndexingError>
    decreases items.len(),
{
    if items.len() == 0 {
        Ok(Seq::empty())
    } else {
        match spec_waypoints(items.drop_last()) {
            Err(e) => Err(e),
            Ok(points) => match spec_waypoint(items.last()) {
                Err(e) => Err(e),
                Ok(point) => Ok(points.push(point)),
            },
        }
    }
}

/// An error among the first `n` items is the error of them all.
pub proof fn lemma_waypoints_error(items: Seq<FieldData>, n: int)
    requires
        0 <= n <= items.len(),
        spec_waypoints(items.take(n)) is Err,
    ensures
        spec_waypoints(items) == spec_waypoints(items.take(n)),
    decreases items.len() - n,
{
    if n < items.len() {
        assert(items.take(n + 1).drop_last() =~= items.take(n));
        lemma_waypoints_error(items, n + 1);
    } else {
        assert(items.take(n) =~= items);
    }
}

/// A path that parses has one point for each item, in the order of the
/// items, and each item stands for its point.
pub proof fn lemma_waypoints_in_order(items: Seq<FieldData>)
    ensures
        spec_waypoints(items) matches Ok(points) ==> {
            &&& points.len() == items.len()
            &&& forall|i: int|
                0 <= i < items.len() ==> spec_waypoint(#[trigger] items[i]) == Ok::<
                    Waypoint,
                    IndexingError,
                >(points[i])
        },
    decreases items.len(),
{
    if items.len() > 0 {
        let front = items.drop_last();
        lemma_waypoints_in_order(front);
        if let Ok(points) = spec_waypoints(items) {
            let before = spec_waypoints(front)->Ok_0;
            assert forall|i: int| 0 <= i < items.len() implies spec_waypoint(#[trigger] items[i])
                == Ok::<Waypoint, IndexingError>(points[i]) by {
                if i < front.len() {
                    assert(items[i] == front[i]);
                    assert(points[i] == before[i]);
                }
            }
        }
    }
}

/// Reads one item of a path as a point.
pub fn parse_waypoint(item: &FieldValue) -> (r: Result<Waypoint, IndexingError>)
    ensures
        r == spec_waypoint(item@),
{
    match item {
        FieldValue::Object(_) => {},
        _ => { return Err(IndexingError::WrongShape); },
    }
    let x = match item.member(POINT_X) {
        None => { return Err(IndexingError::MissingField); },
        Some(v) => match v.as_number() {
            Some(n) => n,
            None => { return Err(IndexingError::WrongShape); },
        },
    };
    let y = match item.member(POINT_Y) {
        None => { return Err(IndexingError::MissingField); },
        Some(v) => match v.as_number() {
            Some(n) => n,
            None => { return Err(IndexingError::WrongShape); },
        },
    };
    Ok(Waypoint { x, y })
}

impl ParseFields for PatrolPath {
    /// A path needs the field `Path` with an array in it, each item of which
    /// stands for a point. An empty array makes an empty path.
    open spec fn spec_parse(fields: FieldMap) -> Result<
        Seq<Waypoint>,
        IndexingError,
    > {
        if !fields.contains_key(PATH_FIELD@) {
            Err(IndexingError::MissingField)
        } else {
            match fields[PATH_FIELD@] {
                Some(FieldData::Array(items)) => spec_waypoints(items),
                _ => Err(IndexingError::WrongShape),
            }
        }
    }

    fn parse(fields: &FieldBag) -> (r: Result<PatrolPath, IndexingError>) {
        let items = match fields.get(PATH_FIELD) {
            None => { return Err(IndexingError::MissingField); },
            Some(None) => { return Err(IndexingError::WrongShape); },
            Some(Some(value)) => match value.as_array() {
                Some(items) => items,
                None => { return Err(IndexingError::WrongShape); },
            },
        };
        let ghost all = fields@[PATH_FIELD@]->Some_0->Array_0;
        let mut waypoints: Vec<Waypoint> = Vec::new();
        let mut i: usize = 0;
        while i < items.len()
            invariant
                i <= items@.len(),
                fields@.contains_key(PATH_FIELD@),
                fields@[PATH_FIELD@] == Some(FieldData::Array(all)),
                all.len() == items@.len(),
                forall|k: int| 0 <= k < items@.len() ==> #[trigger] all[k] == items@[k]@,
                spec_waypoints(all.take(i as int)) == Ok::<Seq<Waypoint>, IndexingError>(
                    waypoints@,
                ),
            decreases items@.len() - i,
        {
            proof {
                assert(all.take(i + 1).drop_last() =~= all.take(i as int));
                assert(all.take(i + 1).last() == all[i as int]);
            }
            match parse_waypoint(&items[i]) {
                Ok(point) => {
                    waypoints.push(point);
                },
                Err(e) => {
                    proof {
                        assert(spec_waypoint(all[i as int]) == Err::<Waypoint, IndexingError>(e));
                        assert(spec_waypoints(all.take(i + 1)) == Err::<
                            Seq<Waypoint>,
                            IndexingError,
                        >(e));
                        lemma_waypoints_error(all, i + 1);
                    }
                    return Err(e);
                },
            }
            i += 1;
        }
        assert(all.take(i as int) =~= all);
        Ok(PatrolPath { waypoints })
    }
}

} // verus!
