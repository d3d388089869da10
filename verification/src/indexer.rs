//! Reading the entities of a level as the types that the game knows, each
//! entity once.

use vstd::prelude::*;
use vstd::string::StringExecFns;
use crate::door::{Door, DOOR_ID};
use crate::fields::{FieldBag, FieldMap};
use crate::gold::{Gold, GOLD_ID};
use crate::map::{MapEntity, MapEntityData};
use crate::patrol_path::{PatrolPath, Waypoint, PATROL_PATH_ID};
use crate::start_location::{StartLocation, START_LOCATION_ID};
use crate::text::str_eq;

verus! {

/// Why an entity of the level was not read as a type.
#[derive(Clone, Copy, Debug, PartialEq, Eq, Structural)]
pub enum IndexingError {
    /// The entity's type name is none that the game knows.
    NoKnownType,
    /// A field that the type needs is not among the entity's fields.
    MissingField,
    /// A field is there, but its value is not of the kind the type needs.
    WrongShape,
}

impl IndexingError {
    /// The text that `message` gives.
    pub open spec fn spec_message(self) -> Seq<char> {
        match self {
            IndexingError::NoKnownType => "No known type to parse to"@,
            IndexingError::MissingField => "Missing fields from type, failed to parse"@,
            IndexingError::WrongShape => "Field of the wrong shape for type, failed to parse"@,
        }
    }

    /// The error in words.
    pub fn message(&self) -> (text: String)
        ensures
            text@ == self.spec_message(),
    {
        match self {
            IndexingError::NoKnownType => String::from_str("No known type to parse to"),
            IndexingError::MissingField => String::from_str(
                "Missing fields from type, failed to parse",
            ),
            IndexingError::WrongShape => String::from_str(
                "Field of the wrong shape for type, failed to parse",
            ),
        }
    }
}

/// Marks an entity of the level as read: whether or not it was read as a
/// type, it is not read again.
#[derive(Clone, Copy, Debug, PartialEq, Eq, Structural)]
pub struct EntityIndexed;

/// A type that the fields of an entity of the level can be read as.
pub trait ParseFields: Sized + View {
    /// What `parse` makes of the fields: the value read, or why none was.
    spec fn spec_parse(fields: FieldMap) -> Result<Self::V, IndexingError>;

    /// Reads the fields as a value of the type. The same fields always give
    /// the same value or the same error.
    fn parse(fields: &FieldBag) -> (r: Result<Self, IndexingError>)
        ensures
            match r {
                Ok(value) => Self::spec_parse(fields@) == Ok::<Self::V, IndexingError>(value@),
                Err(e) => Self::spec_parse(fields@) == Err::<Self::V, IndexingError>(e),
            },
    ;
}

/// An entity of the level, read as one of the types that the game knows.
#[derive(Debug)]
pub enum TypedComponent {
    StartLocation(StartLocation),
    Door(Door),
    PatrolPath(PatrolPath),
    Gold(Gold),
}

/// What a `TypedComponent` holds, as a mathematical value.
pub enum TypedComponentData {
    StartLocation(StartLocation),
    Door(Door),
    PatrolPath(Seq<Waypoint>),
    Gold(Gold),
}

impl View for TypedComponent {
    type V = TypedComponentData;

    open spec fn view(&self) -> TypedComponentData {
        match self {
            TypedComponent::StartLocation(s) => TypedComponentData::StartLocation(*s),
            TypedComponent::Door(d) => TypedComponentData::Door(*d),
            TypedComponent::PatrolPath(p) => TypedComponentData::PatrolPath(p@),
            TypedComponent::Gold(g) => TypedComponentData::Gold(*g),
        }
    }
}

impl DeepView for TypedComponent {
    type V = TypedComponentData;

    open spec fn deep_view(&self) -> TypedComponentData {
        self@
    }
}

/// Whether `name` is the name of a type that the game knows. Names are told
/// apart by case.
pub open spec fn is_known_type(name: Seq<char>) -> bool {
    name == START_LOCATION_ID@ || name == DOOR_ID@ || name == PATROL_PATH_ID@ || name == GOLD_ID@
}

/// What reading an entity gives: the entity as the type that its name
/// calls for, or the fault in its fields, or that no type goes by its name.
pub open spec fn spec_classify(entity: MapEntityData) -> Result<TypedComponentData, IndexingError> {
    if entity.name == START_LOCATION_ID@ {
        match StartLocation::spec_parse(entity.fields) {
            Ok(s) => Ok(TypedComponentData::StartLocation(s)),
            Err(e) => Err(e),
        }
    } else if entity.name == DOOR_ID@ {
        match Door::spec_parse(entity.fields) {
            Ok(d) => Ok(TypedComponentData::Door(d)),
            Err(e) => Err(e),
        }
    } else if entity.name == PATROL_PATH_ID@ {
        match PatrolPath::spec_parse(entity.fields) {
            Ok(p) => Ok(TypedComponentData::PatrolPath(p)),
            Err(e) => Err(e),
        }
    } else if entity.name == GOLD_ID@ {
        match Gold::spec_parse(entity.fields) {
            Ok(g) => Ok(TypedComponentData::Gold(g)),
            Err(e) => Err(e),
        }
    } else {
        Err(IndexingError::NoKnownType)
    }
}

/// Reads an entity of the level as the type that its name calls for.
pub fn classify(entity: &MapEntity) -> (r: Result<TypedComponent, IndexingError>)
    ensures
        match r {
            Ok(c) => spec_classify(entity@) == Ok::<TypedComponentData, IndexingError>(c@),
            Err(e) => spec_classify(entity@) == Err::<TypedComponentData, IndexingError>(e),
        },
{
    let name = entity.name.as_str();
    if str_eq(name, START_LOCATION_ID) {
        match StartLocation::parse(&entity.fields) {
            Ok(s) => Ok(TypedComponent::StartLocation(s)),
            Err(e) => Err(e),
        }
    } else if str_eq(name, DOOR_ID) {
        match Door::parse(&entity.fields) {
            Ok(d) => Ok(TypedComponent::Door(d)),
            Err(e) => Err(e),
        }
    } else if str_eq(name, PATROL_PATH_ID) {
        match PatrolPath::parse(&entity.fields) {
            Ok(p) => Ok(TypedComponent::PatrolPath(p)),
            Err(e) => Err(e),
        }
    } else if str_eq(name, GOLD_ID) {
        match Gold::parse(&entity.fields) {
            Ok(g) => Ok(TypedComponent::Gold(g)),
            Err(e) => Err(e),
        }
    } else {
        Err(IndexingError::NoKnownType)
    }
}

/// An entity of the level in the world: what the level file says of it,
/// whether it has been read, and the type it was read as.
#[derive(Debug)]
pub struct LevelEntity {
    pub id: u64,
    pub entity: MapEntity,
    pub indexed: Option<EntityIndexed>,
    pub component: Option<TypedComponent>,
}

/// What a `LevelEntity` holds, as a mathematical value.
pub struct LevelEntityData {
    pub id: u64,
    pub entity: MapEntityData,
    pub indexed: bool,
    pub component: Option<TypedComponentData>,
}

impl View for LevelEntity {
    type V = LevelEntityData;

    open spec fn view(&self) -> LevelEntityData {
        LevelEntityData {
            id: self.id,
            entity: self.entity@,
            indexed: self.indexed is Some,
            component: self.component.deep_view(),
        }
    }
}

impl DeepView for LevelEntity {
    type V = LevelEntityData;

    open spec fn deep_view(&self) -> LevelEntityData {
        self@
    }
}

impl LevelEntity {
    /// An entity of the level that has not been read yet.
    pub fn new(id: u64, entity: MapEntity) -> (e: LevelEntity)
        ensures
            e@ == (LevelEntityData { id, entity: entity@, indexed: false, component: None }),
            e@.well_formed(),
    {
        LevelEntity { id, entity, indexed: None, component: None }
    }
}

/// One pass of the indexer over one entity. An entity that was read before
/// stays as it is. One that was not is marked as read, whatever comes of
/// reading it, and where it reads as a type it is given that type.
pub open spec fn indexed_once(e: LevelEntityData) -> LevelEntityData {
    if e.indexed {
        e
    } else {
        LevelEntityData {
            id: e.id,
            entity: e.entity,
            indexed: true,
            component: match spec_classify(e.entity) {
                Ok(c) => Some(c),
                Err(_) => e.component,
            },
        }
    }
}

impl LevelEntityData {
    /// Whether the entity is in order: one that has not been read has no
    /// type.
    pub open spec fn well_formed(self) -> bool {
        !self.indexed ==> self.component is None
    }
}

/// The indexer never goes back on an entity: one that was read stays as it
/// is, one that is in order stays in order, and one that was not read has a
/// type after the pass exactly if it reads as one.
pub proof fn lemma_indexing_is_terminal(e: LevelEntityData)
    ensures
        e.indexed ==> indexed_once(e) == e,
        e.well_formed() ==> indexed_once(e).well_formed(),
        e.well_formed() && !e.indexed ==> (indexed_once(e).component is Some <==> spec_classify(
            e.entity,
        ) is Ok),
{
}

/// One pass of the indexer over all entities.
pub open spec fn indexed_all(entities: Seq<LevelEntityData>) -> Seq<LevelEntityData> {
    Seq::new(entities.len(), |i: int| indexed_once(entities[i]))
}

/// What a pass of the indexer did with one entity.
#[derive(Clone, Copy, Debug, PartialEq, Eq, Structural)]
pub struct IndexReport {
    /// The entity that was marked as read.
    pub id: u64,
    /// Why it was not read as a type, if it was not.
    pub failure: Option<IndexingError>,
}

/// The reports of a pass: one for each entity that had not been read, in
/// order.
pub open spec fn spec_reports(entities: Seq<LevelEntityData>) -> Seq<IndexReport>
    decreases entities.len(),
{
    if entities.len() == 0 {
        Seq::empty()
    } else {
        let before = spec_reports(entities.drop_last());
        let e = entities.last();
        if e.indexed {
            before
        } else {
            before.push(
                IndexReport {
                    id: e.id,
                    failure: match spec_classify(e.entity) {
                        Ok(_) => None,
                        Err(err) => Some(err),
                    },
                },
            )
        }
    }
}

/// One pass of the indexer: reads each entity that has not been read, gives
/// it the type it reads as, if any, and marks it as read. A fault in one
/// entity, or a name that no type goes by, leaves that entity without a
/// type and the pass goes on to the next. Returns a report for each entity
/// it marked.
pub fn index_entities(entities: &mut Vec<LevelEntity>) -> (reports: Vec<IndexReport>)
    ensures
        final(entities).deep_view() == indexed_all(old(entities).deep_view()),
        reports@ == spec_reports(old(entities).deep_view()),
        forall|i: int|
            0 <= i < final(entities)@.len() ==> (#[trigger] final(entities)@[i]).indexed is Some,
{
    let mut reports: Vec<IndexReport> = Vec::new();
    let ghost before = entities.deep_view();
    let mut i: usize = 0;
    while i < entities.len()
        invariant
            i <= entities@.len(),
            before == old(entities).deep_view(),
            entities@.len() == before.len(),
            forall|j: int| 0 <= j < i ==> (#[trigger] entities@[j])@ == indexed_once(before[j]),
            forall|j: int| i <= j < entities@.len() ==> (#[trigger] entities@[j])@ == before[j],
            reports@ == spec_reports(before.take(i as int)),
        decreases entities@.len() - i,
    {
        proof {
            assert(before.take(i + 1).drop_last() =~= before.take(i as int));
        }
        if entities[i].indexed.is_none() {
            let id = entities[i].id;
            let failure = match classify(&entities[i].entity) {
                Ok(c) => {
                    entities[i].component = Some(c);
                    None
                },
                Err(e) => Some(e),
            };
            entities[i].indexed = Some(EntityIndexed);
            reports.push(IndexReport { id, failure });
        }
        i += 1;
    }
    proof {
        assert(before.take(i as int) =~= before);
        assert(entities.deep_view() =~= indexed_all(before));
    }
    reports
}

/// The entity after `n` passes of the indexer.
pub open spec fn after_passes(e: LevelEntityData, n: nat) -> LevelEntityData
    decreases n,
{
    if n == 0 {
        e
    } else {
        indexed_once(after_passes(e, (n - 1) as nat))
    }
}

/// How many of the first `n` passes of the indexer mark the entity as read.
pub open spec fn times_marked(e: LevelEntityData, n: nat) -> nat
    decreases n,
{
    if n == 0 {
        0
    } else {
        times_marked(e, (n - 1) as nat) + if after_passes(e, (n - 1) as nat).indexed {
            0nat
        } else {
            1nat
        }
    }
}

/// A second pass of the indexer changes nothing: over any entities, two
/// passes leave what one pass leaves, and the second pass marks no entity.
pub proof fn lemma_indexing_is_idempotent(entities: Seq<LevelEntityData>)
    ensures
        indexed_all(indexed_all(entities)) == indexed_all(entities),
        spec_reports(indexed_all(entities)) == Seq::<IndexReport>::empty(),
{
    assert(indexed_all(indexed_all(entities)) =~= indexed_all(entities));
    lemma_no_reports_for_indexed(indexed_all(entities));
}

/// A pass over entities that have all been read marks none of them.
pub proof fn lemma_no_reports_for_indexed(entities: Seq<LevelEntityData>)
    requires
        forall|i: int| 0 <= i < entities.len() ==> (#[trigger] entities[i]).indexed,
    ensures
        spec_reports(entities) == Seq::<IndexReport>::empty(),
    decreases entities.len(),
{
    if entities.len() > 0 {
        let front = entities.drop_last();
        assert forall|i: int| 0 <= i < front.len() implies (#[trigger] front[i]).indexed by {
            assert(front[i] == entities[i]);
        }
        lemma_no_reports_for_indexed(front);
        assert(entities.last() == entities[entities.len() - 1]);
    }
}

/// Over any number of passes of the indexer an entity is marked as read
/// once and no more: in the first pass, if it had not been read, and in no
/// pass if it had. From the first pass on the entity stays as that pass
/// left it.
pub proof fn lemma_marked_at_most_once(e: LevelEntityData, n: nat)
    ensures
        times_marked(e, n) == if e.indexed || n == 0 {
            0nat
        } else {
            1nat
        },
        n >= 1 ==> after_passes(e, n) == indexed_once(e),
        n >= 1 ==> after_passes(e, n).indexed,
    decreases n,
{
    if n > 0 {
        lemma_marked_at_most_once(e, (n - 1) as nat);
    }
}

/// An entity whose type name no type goes by is marked as read and is given
/// no type.
pub proof fn lemma_unknown_type_is_tolerated(e: LevelEntityData)
    requires
        !is_known_type(e.entity.name),
    ensures
        spec_classify(e.entity) == Err::<TypedComponentData, IndexingError>(
            IndexingError::NoKnownType,
        ),
        indexed_once(e).indexed,
        indexed_once(e).component == e.component,
        indexed_once(e).entity == e.entity,
{
}

/// Reading an entity depends on its name and its fields alone: two entities
/// with the same name and the same fields read as the same type with the
/// same values, or fail for the same reason.
pub proof fn lemma_parsing_is_deterministic(a: MapEntity, b: MapEntity)
    requires
        a@ == b@,
    ensures
        spec_classify(a@) == spec_classify(b@),
        StartLocation::spec_parse(a.fields@) == StartLocation::spec_parse(b.fields@),
        Door::spec_parse(a.fields@) == Door::spec_parse(b.fields@),
        PatrolPath::spec_parse(a.fields@) == PatrolPath::spec_parse(b.fields@),
        Gold::spec_parse(a.fields@) == Gold::spec_parse(b.fields@),
{
}

} // verus!
