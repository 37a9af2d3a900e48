use surrealdb_id::link::{Link, LinkValue, RecordId, RecordIdView, SurrealId};
use surrealdb_id::relation::{IdRelation, IntoRelation, LinkRelation, Relation};

#[derive(Debug, Clone, PartialEq)]
struct User {
    name: String,
}

#[derive(Debug, Clone, PartialEq)]
struct BlogPost {
    title: String,
}

#[derive(Debug, Clone, PartialEq)]
struct Discussion {
    content: String,
    created_at: String,
}

impl SurrealId for User {
    // only proofs read this; plain code never calls it
    fn spec_id(&self) -> RecordIdView {
        unreachable!()
    }

    fn id(&self) -> RecordId {
        RecordId::new("user", self.name.as_str())
    }
}

impl SurrealId for BlogPost {
    // only proofs read this; plain code never calls it
    fn spec_id(&self) -> RecordIdView {
        unreachable!()
    }

    fn id(&self) -> RecordId {
        RecordId::new("blog", self.title.as_str())
    }
}

impl SurrealId for Discussion {
    // only proofs read this; plain code never calls it
    fn spec_id(&self) -> RecordIdView {
        unreachable!()
    }

    fn id(&self) -> RecordId {
        RecordId::new("discussion", self.created_at.as_str())
    }
}

fn discussion() -> Discussion {
    Discussion {
        content: "Hello I really want to know more".to_string(),
        created_at: "1577836800000".to_string(),
    }
}

#[test]
fn relate_keeps_content_and_both_ends() {
    let rel = discussion().relate(RecordId::new("user", "Devlog"), RecordId::new("blog", "How to use surrealdb"));
    assert_eq!(rel.relation, discussion());
    assert!(rel.in_.as_ref().unwrap() == &RecordId::new("user", "Devlog"));
    assert!(rel.out.as_ref().unwrap() == &RecordId::new("blog", "How to use surrealdb"));
}

#[test]
fn relate_with_links_keeps_their_forms() {
    let rel: LinkRelation<User, Discussion, BlogPost> = discussion().relate(
        Link::Record(User { name: "Devlog".to_string() }),
        Link::Id(RecordId::new("blog", "How to use surrealdb")),
    );
    assert!(matches!(rel.in_, Some(Link::Record(_))));
    assert!(matches!(rel.out, Some(Link::Id(_))));
}

#[test]
fn relation_derefs_to_content() {
    let rel: IdRelation<Discussion> = discussion().relate(RecordId::new("user", "a"), RecordId::new("blog", "b"));
    assert_eq!(std::ops::Deref::deref(&rel).content, "Hello I really want to know more");
    assert_eq!(rel.created_at, "1577836800000");
}

#[test]
fn relation_identifier_is_its_content_identifier() {
    let a: IdRelation<Discussion> = discussion().relate(RecordId::new("user", "a"), RecordId::new("blog", "b"));
    let b: IdRelation<Discussion> = Relation { in_: None, out: None, relation: discussion() };
    let ia = SurrealId::id(&a);
    assert_eq!(ia.table, "discussion");
    assert_eq!(ia.key, "1577836800000");
    assert!(ia == SurrealId::id(&b));
}

#[test]
fn should_convert_to_relation() {
    // A RELATE result fetched with both ends: each end arrives as an object.
    let rel: LinkRelation<User, Discussion, BlogPost> = Relation {
        in_: Some(Link::from_value(LinkValue::Object(User { name: "Devlog".to_string() })).unwrap()),
        out: Some(Link::from_value(LinkValue::Object(BlogPost { title: "How to use surrealdb".to_string() })).unwrap()),
        relation: discussion(),
    };
    assert_eq!(rel.in_.as_ref().unwrap().deref().name.to_string(), "Devlog".to_owned());
    assert_eq!(rel.out.as_ref().unwrap().deref().title.to_string(), "How to use surrealdb".to_owned());
}

#[test]
fn should_work_with_id_relation() {
    // A RELATE result without fetching: each end arrives as a bare identifier.
    let relation: Option<IdRelation<Discussion>> = Some(Relation {
        in_: Some(RecordId::new("user", "Devlog")),
        out: Some(RecordId::new("blog", "How to use surrealdb")),
        relation: discussion(),
    });
    assert!(&relation.is_some());
    let relation = relation.unwrap();
    let i = relation.in_.as_ref().unwrap();
    assert_ne!(i.key.to_string(), "user:Devlog");
    assert_eq!(format!("{}:{}", i.table, i.key), "user:Devlog");
}
