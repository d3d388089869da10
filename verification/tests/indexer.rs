use illusion_of_security::fields::{FieldBag, FieldValue, Number};
use illusion_of_security::gold::Gold;
use illusion_of_security::indexer::{
    classify, index_entities, EntityIndexed, IndexReport, IndexingError, LevelEntity,
    TypedComponent,
};
use illusion_of_security::map::MapEntity;
use illusion_of_security::start_location::{StartEntity, StartLocation};

fn text(s: &str) -> FieldValue {
    FieldValue::String(s.to_string())
}

fn whole(n: u64) -> FieldValue {
    FieldValue::Number(Number::PosInt(n))
}

fn entity(name: &str, fields: Vec<(&str, Option<FieldValue>)>) -> MapEntity {
    let mut bag = FieldBag::new();
    for (k, v) in fields {
        bag.insert(k.to_string(), v);
    }
    MapEntity { name: name.to_string(), fields: bag }
}

fn spawn_point(kind: &str, count: u64) -> MapEntity {
    entity(
        "Start_Location",
        vec![("Character", Some(text(kind))), ("Count", Some(whole(count)))],
    )
}

fn summary(e: &LevelEntity) -> (u64, bool, String) {
    (e.id, e.indexed.is_some(), format!("{:?}", e.component))
}

#[test]
fn classify_reads_each_known_type() {
    assert!(matches!(
        classify(&spawn_point("Enemy", 3)),
        Ok(TypedComponent::StartLocation(StartLocation {
            character: StartEntity::Enemy,
            count: 3,
            spawned: 0
        }))
    ));
    assert!(matches!(classify(&entity("Door", vec![])), Ok(TypedComponent::Door(_))));
    assert!(matches!(
        classify(&entity("Gold", vec![("Value", Some(whole(9)))])),
        Ok(TypedComponent::Gold(Gold { value: 9 }))
    ));
    let path = entity("Patrol_Path", vec![("Path", Some(FieldValue::Array(vec![])))]);
    match classify(&path) {
        Ok(TypedComponent::PatrolPath(p)) => assert!(p.waypoints.is_empty()),
        other => panic!("not a path: {:?}", other),
    }
}

#[test]
fn classify_tells_type_names_apart_by_case() {
    assert!(matches!(classify(&entity("door", vec![])), Err(IndexingError::NoKnownType)));
    assert!(matches!(classify(&entity("DOOR", vec![])), Err(IndexingError::NoKnownType)));
    assert!(matches!(
        classify(&entity("start_location", vec![])),
        Err(IndexingError::NoKnownType)
    ));
    assert!(matches!(classify(&entity("", vec![])), Err(IndexingError::NoKnownType)));
}

#[test]
fn classify_passes_on_the_parser_error() {
    assert!(matches!(
        classify(&entity("Start_Location", vec![])),
        Err(IndexingError::MissingField)
    ));
    assert!(matches!(
        classify(&entity("Gold", vec![("Value", Some(text("nine")))])),
        Err(IndexingError::WrongShape)
    ));
    assert!(matches!(
        classify(&entity("Patrol_Path", vec![("Path", None)])),
        Err(IndexingError::WrongShape)
    ));
}

#[test]
fn new_entity_is_unread() {
    let e = LevelEntity::new(4, entity("Door", vec![]));
    assert_eq!(e.id, 4);
    assert!(e.indexed.is_none());
    assert!(e.component.is_none());
}

#[test]
fn pass_marks_every_entity_and_types_those_that_parse() {
    let mut entities = vec![
        LevelEntity::new(1, spawn_point("Player", 1)),
        LevelEntity::new(2, entity("Start_Location", vec![("Character", Some(text("Enemy")))])),
        LevelEntity::new(3, entity("Foo", vec![])),
        LevelEntity::new(4, entity("Door", vec![])),
    ];
    let reports = index_entities(&mut entities);
    assert_eq!(
        reports,
        vec![
            IndexReport { id: 1, failure: None },
            IndexReport { id: 2, failure: Some(IndexingError::MissingField) },
            IndexReport { id: 3, failure: Some(IndexingError::NoKnownType) },
            IndexReport { id: 4, failure: None },
        ]
    );
    for e in entities.iter() {
        assert_eq!(e.indexed, Some(EntityIndexed));
    }
    assert!(matches!(entities[0].component, Some(TypedComponent::StartLocation(_))));
    assert!(entities[1].component.is_none());
    assert!(entities[2].component.is_none());
    assert!(matches!(entities[3].component, Some(TypedComponent::Door(_))));
    assert_eq!(entities[1].entity.name, "Start_Location");
    assert_eq!(entities[2].entity.name, "Foo");
}

#[test]
fn unknown_type_is_marked_without_component_and_pass_goes_on() {
    let mut entities = vec![
        LevelEntity::new(10, entity("Foo", vec![("Count", Some(whole(1)))])),
        LevelEntity::new(11, entity("Gold", vec![("Value", Some(whole(5)))])),
    ];
    let reports = index_entities(&mut entities);
    assert_eq!(reports[0], IndexReport { id: 10, failure: Some(IndexingError::NoKnownType) });
    assert_eq!(entities[0].indexed, Some(EntityIndexed));
    assert!(entities[0].component.is_none());
    assert_eq!(entities[1].indexed, Some(EntityIndexed));
    assert!(matches!(entities[1].component, Some(TypedComponent::Gold(Gold { value: 5 }))));
}

#[test]
fn second_pass_changes_nothing() {
    let mut entities = vec![
        LevelEntity::new(1, spawn_point("Enemy", 3)),
        LevelEntity::new(2, entity("Foo", vec![])),
        LevelEntity::new(3, entity("Gold", vec![])),
    ];
    let first = index_entities(&mut entities);
    assert_eq!(first.len(), 3);
    let after_one: Vec<(u64, bool, String)> = entities.iter().map(summary).collect();
    let second = index_entities(&mut entities);
    assert!(second.is_empty());
    let after_two: Vec<(u64, bool, String)> = entities.iter().map(summary).collect();
    assert_eq!(after_one, after_two);
}

#[test]
fn each_entity_is_marked_in_exactly_one_pass() {
    let mut entities = vec![
        LevelEntity::new(1, spawn_point("Enemy", 3)),
        LevelEntity::new(2, entity("Foo", vec![])),
    ];
    let mut marked: Vec<u64> = Vec::new();
    for tick in 0..5 {
        if tick == 2 {
            entities.push(LevelEntity::new(3, entity("Door", vec![])));
        }
        for r in index_entities(&mut entities) {
            marked.push(r.id);
        }
    }
    assert_eq!(marked, vec![1, 2, 3]);
}

#[test]
fn read_entity_is_not_read_again() {
    let mut e = LevelEntity::new(1, entity("Gold", vec![("Value", Some(whole(5)))]));
    e.indexed = Some(EntityIndexed);
    let mut entities = vec![e];
    let reports = index_entities(&mut entities);
    assert!(reports.is_empty());
    assert!(entities[0].component.is_none());
}

#[test]
fn pass_over_nothing() {
    let mut entities: Vec<LevelEntity> = Vec::new();
    assert!(index_entities(&mut entities).is_empty());
    assert!(entities.is_empty());
}
