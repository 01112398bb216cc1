use spicedb_rust::spicedb::check_permission_response::Permissionship;
use spicedb_rust::spicedb::consistency::Requirement;
use spicedb_rust::spicedb::delete_relationships_response::DeletionProgress;
use spicedb_rust::spicedb::lookup_subjects_request::WildcardOption;
use spicedb_rust::spicedb::messages::SubjectReferenceView;
use spicedb_rust::spicedb::precondition::Operation as PreconditionOperation;
use spicedb_rust::spicedb::subject_filter::RelationFilter;
use spicedb_rust::spicedb::wrappers;
use spicedb_rust::spicedb::{
    caveated_relationship_update, object_reference, precondition, precondition_raw,
    relationship_filter, relationship_filter_raw, relationship_update, subject_filter,
    subject_filter_raw, subject_reference, subject_reference_raw, wildcard_relationship_update,
    Consistency, ContextualizedCaveat, Cursor, LookupPermissionship, ObjectReference,
    Precondition, ReadRelationshipsResponse, ReadSchemaResponse, Relationship,
    RelationshipFilter, RelationshipUpdate, SubjectFilter, SubjectReference, ZedToken,
};
use spicedb_rust::{
    Actor, Caveat, DecodeError, Entity, EntityId, Error, ErrorKind, NoRelations, Permission,
    Relation, RelationshipOperation, Resource, StatusCode, UsageError, UuidId, WildCardId,
};
use uuid::Uuid;
use vstd::seq::Seq;

// The items of the traits that only proofs read are never called.

struct UserId(Uuid);

impl vstd::view::View for UserId {
    type V = Uuid;

    fn view(&self) -> Uuid {
        unreachable!()
    }
}

impl EntityId for UserId {
    fn wire(_: Uuid) -> Seq<char> {
        unreachable!()
    }

    fn parse_wire(_: Seq<char>) -> Option<Uuid> {
        unreachable!()
    }

    fn into_wire(self) -> String {
        self.0.into()
    }

    fn from_wire(s: &str) -> Option<Self> {
        s.parse().ok().map(UserId)
    }
}

struct User(Uuid);

impl Entity for User {
    type Relations = NoRelations;
    type Id = UserId;

    fn object_type_spec() -> Seq<char> {
        unreachable!()
    }

    fn object_type() -> &'static str {
        "user"
    }
}

impl Actor for User {
    fn subject_spec(&self) -> SubjectReferenceView {
        unreachable!()
    }

    fn to_subject(&self) -> SubjectReference {
        subject_reference_raw(self.0.to_string(), User::object_type().to_owned(), None)
    }
}

struct Group;

enum GroupRelation {
    Member,
}

impl Relation for GroupRelation {
    fn has_name(&self) -> bool {
        unreachable!()
    }

    fn name_spec(&self) -> Seq<char> {
        unreachable!()
    }

    fn name(&self) -> &'static str {
        "member"
    }
}

impl Entity for Group {
    type Relations = GroupRelation;
    type Id = String;

    fn object_type_spec() -> Seq<char> {
        unreachable!()
    }

    fn object_type() -> &'static str {
        "group"
    }
}

struct Document;

enum DocumentPermission {
    Read,
    Write,
}

impl Permission for DocumentPermission {
    fn name_spec(&self) -> Seq<char> {
        unreachable!()
    }

    fn names_are_unique(_: Self, _: Self) {}

    fn name(&self) -> &'static str {
        match self {
            DocumentPermission::Read => "read",
            DocumentPermission::Write => "write",
        }
    }
}

enum DocumentRelation {
    Reader,
    Writer,
}

impl Relation for DocumentRelation {
    fn has_name(&self) -> bool {
        unreachable!()
    }

    fn name_spec(&self) -> Seq<char> {
        unreachable!()
    }

    fn name(&self) -> &'static str {
        match self {
            DocumentRelation::Reader => "reader",
            DocumentRelation::Writer => "writer",
        }
    }
}

impl Entity for Document {
    type Relations = DocumentRelation;
    type Id = String;

    fn object_type_spec() -> Seq<char> {
        unreachable!()
    }

    fn object_type() -> &'static str {
        "document"
    }
}

impl Resource for Document {
    type Permissions = DocumentPermission;
}

struct OnWeekdays;

impl Caveat for OnWeekdays {
    type ContextStruct = prost_types::Struct;

    fn has_name() -> bool {
        unreachable!()
    }

    fn name_spec() -> Seq<char> {
        unreachable!()
    }

    fn name() -> &'static str {
        "on_weekdays"
    }
}

fn object(object_type: &str, object_id: &str) -> ObjectReference {
    ObjectReference { object_type: object_type.to_owned(), object_id: object_id.to_owned() }
}

fn weekday_context() -> prost_types::Struct {
    let mut context = prost_types::Struct::default();
    context.fields.insert(
        "day".to_owned(),
        prost_types::Value {
            kind: Some(prost_types::value::Kind::StringValue("monday".to_owned())),
        },
    );
    context
}

#[test]
fn object_reference_names_type_and_id() {
    let reference = object_reference::<Document>("homework".to_owned());
    assert_eq!(reference, object("document", "homework"));
}

#[test]
fn object_reference_writes_the_id_so_that_it_reads_back() {
    let id = Uuid::from_u128(0x1234_5678_9abc_def0_1234_5678_9abc_def0);
    let reference = object_reference::<User>(UserId(id));
    assert_eq!(reference.object_type, "user");
    assert_eq!(reference.object_id, "12345678-9abc-def0-1234-56789abcdef0");
    assert_eq!(UserId::from_wire(&reference.object_id).unwrap().0, id);
}

#[test]
fn uuid_ids_are_written_hyphenated_in_lower_case() {
    assert_eq!(UuidId::new(0).into_wire(), "00000000-0000-0000-0000-000000000000");
    assert_eq!(UuidId::new(0xab).into_wire(), "00000000-0000-0000-0000-0000000000ab");
    assert_eq!(
        UuidId::new(0xa1a2a3a4b1b2c1c2d1d2d3d4d5d6d7d8).into_wire(),
        "a1a2a3a4-b1b2-c1c2-d1d2-d3d4d5d6d7d8"
    );
    assert_eq!(UuidId::new(u128::MAX).into_wire(), "ffffffff-ffff-ffff-ffff-ffffffffffff");
    assert_eq!(
        UuidId::new(0x0123456789abcdef0123456789abcdef).into_wire(),
        "01234567-89ab-cdef-0123-456789abcdef"
    );
}

#[test]
fn uuid_ids_read_back_and_nothing_else_reads() {
    for value in [0, 1, 0xab, 0xa1a2a3a4b1b2c1c2d1d2d3d4d5d6d7d8, u128::MAX, 1 << 127] {
        let written = UuidId::new(value).into_wire();
        assert_eq!(UuidId::from_wire(&written), Some(UuidId::new(value)));
    }
    assert_eq!(
        UuidId::from_wire("A1A2A3A4-B1B2-C1C2-D1D2-D3D4D5D6D7D8"),
        Some(UuidId::new(0xa1a2a3a4b1b2c1c2d1d2d3d4d5d6d7d8))
    );
    assert_eq!(
        UuidId::from_wire("a1a2a3a4b1b2c1c2d1d2d3d4d5d6d7d8"),
        Some(UuidId::new(0xa1a2a3a4b1b2c1c2d1d2d3d4d5d6d7d8))
    );
    assert_eq!(UuidId::from_wire(""), None);
    assert_eq!(UuidId::from_wire("*"), None);
    assert_eq!(UuidId::from_wire("homework"), None);
    assert_eq!(UuidId::from_wire("a1a2a3a4-b1b2-c1c2-d1d2-d3d4d5d6d7d"), None);
    assert_eq!(UuidId::from_wire("g1a2a3a4-b1b2-c1c2-d1d2-d3d4d5d6d7d8"), None);
    assert_eq!(UuidId::from_parsed(Some(5)), Some(UuidId { value: 5 }));
    assert_eq!(UuidId::from_parsed(None), None);
    assert_eq!(Uuid::from_u128(UuidId::new(77).value).as_u128(), 77);
}

#[test]
fn string_ids_are_their_own_wire_form() {
    assert_eq!("homework".to_owned().into_wire(), "homework");
    assert_eq!(String::from_wire("homework"), Some("homework".to_owned()));
    assert_eq!(String::from_wire(""), Some(String::new()));
    let written = "a b/c*".to_owned().into_wire();
    assert_eq!(String::from_wire(&written), Some("a b/c*".to_owned()));
}

#[test]
fn wildcard_id_is_the_star_and_nothing_else() {
    assert_eq!(WildCardId.into_wire(), "*");
    assert!(WildCardId::from_wire("*").is_some());
    assert!(WildCardId::from_wire("").is_none());
    assert!(WildCardId::from_wire("**").is_none());
    assert!(WildCardId::from_wire("a").is_none());
    assert!(WildCardId::from_wire(&WildCardId.into_wire()).is_some());
}

#[test]
fn subject_reference_holds_the_relation_or_none() {
    let plain = subject_reference::<Group>("staff".to_owned(), None);
    assert_eq!(
        plain,
        SubjectReference { object: Some(object("group", "staff")), optional_relation: String::new() }
    );
    let members = subject_reference::<Group>("staff".to_owned(), Some(GroupRelation::Member));
    assert_eq!(
        members,
        SubjectReference {
            object: Some(object("group", "staff")),
            optional_relation: "member".to_owned(),
        }
    );
}

#[test]
fn subject_reference_raw_takes_the_id_first() {
    let subject =
        subject_reference_raw("alice".to_owned(), "user".to_owned(), Some("owner".to_owned()));
    assert_eq!(
        subject,
        SubjectReference {
            object: Some(object("user", "alice")),
            optional_relation: "owner".to_owned(),
        }
    );
}

#[test]
fn subject_filter_leaves_open_what_is_not_given() {
    assert_eq!(
        subject_filter::<Group>(None, None),
        SubjectFilter {
            subject_type: "group".to_owned(),
            optional_subject_id: String::new(),
            optional_relation: None,
        }
    );
    assert_eq!(
        subject_filter::<Group>(Some("staff".to_owned()), Some(GroupRelation::Member)),
        SubjectFilter {
            subject_type: "group".to_owned(),
            optional_subject_id: "staff".to_owned(),
            optional_relation: Some(RelationFilter { relation: "member".to_owned() }),
        }
    );
    assert_eq!(
        subject_filter_raw("user".to_owned(), None, Some(String::new())),
        SubjectFilter {
            subject_type: "user".to_owned(),
            optional_subject_id: String::new(),
            optional_relation: Some(RelationFilter { relation: String::new() }),
        }
    );
}

#[test]
fn relationship_filter_leaves_open_what_is_not_given() {
    assert_eq!(
        relationship_filter::<Document>(None, None, None, None),
        RelationshipFilter {
            resource_type: "document".to_owned(),
            optional_resource_id: String::new(),
            optional_resource_id_prefix: String::new(),
            optional_relation: String::new(),
            optional_subject_filter: None,
        }
    );
    let users = subject_filter::<User>(None, None);
    assert_eq!(
        relationship_filter::<Document>(
            Some("homework".to_owned()),
            Some("home".to_owned()),
            Some(DocumentRelation::Reader),
            Some(users.clone()),
        ),
        RelationshipFilter {
            resource_type: "document".to_owned(),
            optional_resource_id: "homework".to_owned(),
            optional_resource_id_prefix: "home".to_owned(),
            optional_relation: "reader".to_owned(),
            optional_subject_filter: Some(users.clone()),
        }
    );
    assert_eq!(
        relationship_filter_raw(
            "document".to_owned(),
            None,
            Some("home".to_owned()),
            None,
            Some(users.clone()),
        ),
        RelationshipFilter {
            resource_type: "document".to_owned(),
            optional_resource_id: String::new(),
            optional_resource_id_prefix: "home".to_owned(),
            optional_relation: String::new(),
            optional_subject_filter: Some(users),
        }
    );
}

#[test]
fn precondition_holds_operation_number_and_filter() {
    let typed = precondition::<Document>(
        PreconditionOperation::MustMatch,
        Some("homework".to_owned()),
        None,
        Some(DocumentRelation::Writer),
        None,
    );
    assert_eq!(
        typed,
        Precondition {
            operation: 2,
            filter: Some(relationship_filter::<Document>(
                Some("homework".to_owned()),
                None,
                Some(DocumentRelation::Writer),
                None,
            )),
        }
    );
    let raw = precondition_raw(
        PreconditionOperation::MustNotMatch,
        "document".to_owned(),
        None,
        None,
        None,
        None,
    );
    assert_eq!(raw.operation, 1);
    assert_eq!(raw.filter, Some(relationship_filter::<Document>(None, None, None, None)));
}

#[test]
fn relationship_update_holds_subject_relation_and_resource() {
    let user_id = Uuid::from_u128(7);
    let update = relationship_update::<User, Document>(
        RelationshipOperation::Touch,
        UserId(user_id),
        None,
        "homework".to_owned(),
        DocumentRelation::Writer,
    );
    assert_eq!(
        update,
        RelationshipUpdate {
            operation: 2,
            relationship: Some(Relationship {
                resource: Some(object("document", "homework")),
                relation: "writer".to_owned(),
                subject: Some(SubjectReference {
                    object: Some(object("user", "00000000-0000-0000-0000-000000000007")),
                    optional_relation: String::new(),
                }),
                optional_caveat: None,
            }),
        }
    );
}

#[test]
fn relationship_update_holds_the_subject_relation() {
    let update = relationship_update::<Group, Document>(
        RelationshipOperation::Create,
        "staff".to_owned(),
        Some(GroupRelation::Member),
        "homework".to_owned(),
        DocumentRelation::Reader,
    );
    assert_eq!(update.operation, 1);
    let relationship = update.relationship.unwrap();
    assert_eq!(relationship.subject.unwrap().optional_relation, "member");
    assert_eq!(relationship.relation, "reader");
}

#[test]
fn wildcard_update_names_every_subject() {
    let update = wildcard_relationship_update::<User, Document>(
        RelationshipOperation::Touch,
        "manga".to_owned(),
        DocumentRelation::Reader,
    );
    assert_eq!(
        update,
        RelationshipUpdate {
            operation: 2,
            relationship: Some(Relationship {
                resource: Some(object("document", "manga")),
                relation: "reader".to_owned(),
                subject: Some(SubjectReference {
                    object: Some(object("user", "*")),
                    optional_relation: String::new(),
                }),
                optional_caveat: None,
            }),
        }
    );
}

#[test]
fn caveated_update_holds_the_name_and_the_context() {
    let update = caveated_relationship_update::<User, Document, OnWeekdays>(
        RelationshipOperation::Delete,
        UserId(Uuid::from_u128(1)),
        None,
        "homework".to_owned(),
        DocumentRelation::Reader,
        weekday_context(),
    );
    assert_eq!(update.operation, 3);
    assert_eq!(
        update.relationship.unwrap().optional_caveat,
        Some(ContextualizedCaveat {
            caveat_name: "on_weekdays".to_owned(),
            context: Some(weekday_context()),
        })
    );
}

#[test]
fn actor_and_names_are_what_the_types_say() {
    let actor = User(Uuid::from_u128(1));
    assert_eq!(
        actor.to_subject(),
        SubjectReference {
            object: Some(object("user", "00000000-0000-0000-0000-000000000001")),
            optional_relation: String::new(),
        }
    );
    assert_eq!(DocumentPermission::Read.name(), "read");
    assert_eq!(DocumentPermission::Write.name(), "write");
    assert_eq!(OnWeekdays::name(), "on_weekdays");
}

#[test]
fn relationship_operations_have_their_wire_numbers() {
    let all = [
        (RelationshipOperation::Unspecified, 0),
        (RelationshipOperation::Create, 1),
        (RelationshipOperation::Touch, 2),
        (RelationshipOperation::Delete, 3),
    ];
    for (operation, number) in all {
        assert_eq!(operation.to_i32(), number);
        assert_eq!(RelationshipOperation::from_i32(number), Some(operation));
    }
    assert_eq!(RelationshipOperation::from_i32(4), None);
    assert_eq!(RelationshipOperation::from_i32(-1), None);
}

#[test]
fn precondition_operations_have_their_wire_numbers() {
    let all = [
        (PreconditionOperation::Unspecified, 0),
        (PreconditionOperation::MustNotMatch, 1),
        (PreconditionOperation::MustMatch, 2),
    ];
    for (operation, number) in all {
        assert_eq!(operation.to_i32(), number);
        assert_eq!(PreconditionOperation::from_i32(number), Some(operation));
    }
    assert_eq!(PreconditionOperation::from_i32(3), None);
}

#[test]
fn response_values_have_their_wire_numbers() {
    let answers = [
        (Permissionship::Unspecified, 0),
        (Permissionship::NoPermission, 1),
        (Permissionship::HasPermission, 2),
        (Permissionship::ConditionalPermission, 3),
    ];
    for (answer, number) in answers {
        assert_eq!(answer.to_i32(), number);
        assert_eq!(Permissionship::from_i32(number), Some(answer));
    }
    assert_eq!(Permissionship::from_i32(4), None);
    let progress = [
        (DeletionProgress::Unspecified, 0),
        (DeletionProgress::Complete, 1),
        (DeletionProgress::Partial, 2),
    ];
    for (value, number) in progress {
        assert_eq!(value.to_i32(), number);
        assert_eq!(DeletionProgress::from_i32(number), Some(value));
    }
    assert_eq!(DeletionProgress::from_i32(3), None);
    let wildcards = [
        (WildcardOption::Unspecified, 0),
        (WildcardOption::IncludeWildcards, 1),
        (WildcardOption::ExcludeWildcards, 2),
    ];
    for (value, number) in wildcards {
        assert_eq!(value.to_i32(), number);
        assert_eq!(WildcardOption::from_i32(number), Some(value));
    }
    assert_eq!(WildcardOption::from_i32(3), None);
    assert_eq!(LookupPermissionship::from_i32(0), Some(LookupPermissionship::Unspecified));
    assert_eq!(LookupPermissionship::from_i32(1), Some(LookupPermissionship::HasPermission));
    assert_eq!(
        LookupPermissionship::from_i32(2),
        Some(LookupPermissionship::ConditionalPermission)
    );
    assert_eq!(LookupPermissionship::from_i32(3), None);
    assert_eq!(LookupPermissionship::from_i32(i32::MIN), None);
}

#[test]
fn consistency_converts_one_to_one() {
    let token = ZedToken { token: "t1".to_owned() };
    assert_eq!(
        Consistency::from(wrappers::Consistency::MinimizeLatency),
        Consistency { requirement: Some(Requirement::MinimizeLatency(true)) }
    );
    assert_eq!(
        Consistency::from(wrappers::Consistency::AtLeastAsFresh(token.clone())),
        Consistency { requirement: Some(Requirement::AtLeastAsFresh(token.clone())) }
    );
    assert_eq!(
        Consistency::from(wrappers::Consistency::AtExactSnapshot(token.clone())),
        Consistency { requirement: Some(Requirement::AtExactSnapshot(token)) }
    );
    assert_eq!(
        Consistency::from(wrappers::Consistency::FullyConsistent),
        Consistency { requirement: Some(Requirement::FullyConsistent(true)) }
    );
}

#[test]
fn a_subject_reads_with_its_relation_or_without() {
    let plain = SubjectReference {
        object: Some(object("user", "alice")),
        optional_relation: String::new(),
    };
    assert_eq!(
        wrappers::SubjectReference::decode(plain),
        Ok(wrappers::SubjectReference { object: object("user", "alice"), optional_relation: None })
    );
    let members = SubjectReference {
        object: Some(object("group", "staff")),
        optional_relation: "member".to_owned(),
    };
    assert_eq!(
        wrappers::SubjectReference::decode(members),
        Ok(wrappers::SubjectReference {
            object: object("group", "staff"),
            optional_relation: Some("member".to_owned()),
        })
    );
    let nobody = SubjectReference { object: None, optional_relation: "member".to_owned() };
    assert_eq!(wrappers::SubjectReference::decode(nobody), Err(DecodeError::MissingObject));
}

fn wire_relationship() -> Relationship {
    Relationship {
        resource: Some(object("document", "homework")),
        relation: "writer".to_owned(),
        subject: Some(SubjectReference {
            object: Some(object("user", "alice")),
            optional_relation: String::new(),
        }),
        optional_caveat: None,
    }
}

#[test]
fn a_relationship_reads_when_all_of_it_is_there() {
    assert_eq!(
        wrappers::Relationship::decode(wire_relationship()),
        Ok(wrappers::Relationship {
            resource: object("document", "homework"),
            relation: "writer".to_owned(),
            subject: wrappers::SubjectReference {
                object: object("user", "alice"),
                optional_relation: None,
            },
            optional_caveat: None,
        })
    );
    let mut no_resource = wire_relationship();
    no_resource.resource = None;
    no_resource.subject = None;
    assert_eq!(wrappers::Relationship::decode(no_resource), Err(DecodeError::MissingResource));
    let mut no_subject = wire_relationship();
    no_subject.subject = None;
    assert_eq!(wrappers::Relationship::decode(no_subject), Err(DecodeError::MissingSubject));
    let mut no_object = wire_relationship();
    no_object.subject = Some(SubjectReference { object: None, optional_relation: String::new() });
    assert_eq!(wrappers::Relationship::decode(no_object), Err(DecodeError::MissingObject));
}

#[test]
fn a_stream_element_of_relationships_reads_as_none_or_one() {
    let token = ZedToken { token: "t1".to_owned() };
    let cursor = Cursor { token: "c1".to_owned() };
    let full = ReadRelationshipsResponse {
        read_at: Some(token.clone()),
        relationship: Some(wire_relationship()),
        after_result_cursor: Some(cursor.clone()),
    };
    let read = wrappers::ReadRelationshipsResponse::decode(full).unwrap();
    assert_eq!(read.read_at, token);
    assert_eq!(read.after_result_cursor, Some(cursor));
    assert_eq!(
        read.relationships,
        vec![wrappers::Relationship::decode(wire_relationship()).unwrap()]
    );
    let empty = ReadRelationshipsResponse {
        read_at: Some(token.clone()),
        relationship: None,
        after_result_cursor: None,
    };
    let read = wrappers::ReadRelationshipsResponse::decode(empty).unwrap();
    assert!(read.relationships.is_empty());
    assert_eq!(read.after_result_cursor, None);
    let no_token = ReadRelationshipsResponse {
        read_at: None,
        relationship: Some(Relationship { resource: None, ..wire_relationship() }),
        after_result_cursor: None,
    };
    assert_eq!(
        wrappers::ReadRelationshipsResponse::decode(no_token),
        Err(DecodeError::MissingZedToken)
    );
    let broken = ReadRelationshipsResponse {
        read_at: Some(token),
        relationship: Some(Relationship { resource: None, ..wire_relationship() }),
        after_result_cursor: None,
    };
    assert_eq!(
        wrappers::ReadRelationshipsResponse::decode(broken),
        Err(DecodeError::MissingResource)
    );
}

#[test]
fn a_schema_reads_with_its_token() {
    let token = ZedToken { token: "t1".to_owned() };
    let response = ReadSchemaResponse {
        schema_text: "definition user {}".to_owned(),
        read_at: Some(token.clone()),
    };
    assert_eq!(
        wrappers::ReadSchemaResponse::decode(response),
        Ok(wrappers::ReadSchemaResponse {
            schema_text: "definition user {}".to_owned(),
            read_at: token,
        })
    );
    let response = ReadSchemaResponse { schema_text: String::new(), read_at: None };
    assert_eq!(wrappers::ReadSchemaResponse::decode(response), Err(DecodeError::MissingZedToken));
}

#[test]
fn every_error_has_its_kind_and_status() {
    let usage = [
        UsageError::MissingResource,
        UsageError::MissingPermission,
        UsageError::MissingSubject,
        UsageError::MissingResourceType,
        UsageError::IncompleteCaveat,
    ];
    for e in usage {
        assert_eq!(e.kind(), ErrorKind::Validation);
        assert_eq!(Error::<String>::Usage(e).kind(), ErrorKind::Validation);
    }
    assert_eq!(UsageError::WildcardsNotCollectable.kind(), ErrorKind::IllegalCombination);
    assert_eq!(
        Error::<String>::Usage(UsageError::WildcardsNotCollectable).kind(),
        ErrorKind::IllegalCombination
    );
    assert_eq!(
        Error::<String>::from(UsageError::MissingSubject),
        Error::Usage(UsageError::MissingSubject)
    );
    assert_eq!(Error::Transport("down".to_owned()).kind(), ErrorKind::Transport);
    assert_eq!(Error::<String>::Decode(DecodeError::MissingZedToken).kind(), ErrorKind::Protocol);
    assert_eq!(
        Error::<String>::InvalidId("x".to_owned()).kind(),
        ErrorKind::IdentifierConversion
    );
    assert_eq!(ErrorKind::Validation.status(), Some(StatusCode::InvalidArgument));
    assert_eq!(ErrorKind::IllegalCombination.status(), Some(StatusCode::InvalidArgument));
    assert_eq!(ErrorKind::Transport.status(), None);
    assert_eq!(ErrorKind::Protocol.status(), Some(StatusCode::Internal));
    assert_eq!(ErrorKind::IdentifierConversion.status(), Some(StatusCode::Internal));
}

#[test]
fn every_error_has_its_text() {
    assert_eq!(UsageError::MissingResource.message(), "resource is required");
    assert_eq!(UsageError::MissingPermission.message(), "permission is required");
    assert_eq!(UsageError::MissingSubject.message(), "subject is required");
    assert_eq!(UsageError::MissingResourceType.message(), "resource type is required");
    assert_eq!(
        UsageError::IncompleteCaveat.message(),
        "caveat name and context are both required"
    );
    assert_eq!(
        UsageError::WildcardsNotCollectable.message(),
        "Cannot call send_collect_ids on a lookup_subjects request with wildcards enabled"
    );
    assert_eq!(DecodeError::MissingZedToken.message(), "Invalid ZedToken");
    assert_eq!(DecodeError::MissingObject.message(), "Invalid subject: no object");
    assert_eq!(DecodeError::MissingResource.message(), "Invalid relationship: no resource");
    assert_eq!(DecodeError::MissingSubject.message(), "Invalid relationship: no subject");
    assert_eq!(
        DecodeError::UnknownDeletionProgress(7).message(),
        "Invalid i32 value for DeletionProgress"
    );
    assert_eq!(
        DecodeError::UnknownPermissionship(7).message(),
        "Invalid i32 value for Permissionship"
    );
    assert_eq!(
        Error::<String>::Usage(UsageError::MissingSubject).message(),
        Some("subject is required".to_owned())
    );
    assert_eq!(
        Error::<String>::Decode(DecodeError::MissingZedToken).message(),
        Some("Invalid ZedToken".to_owned())
    );
    assert_eq!(
        Error::<String>::InvalidId("no-uuid".to_owned()).message(),
        Some("Could not parse Id: no-uuid".to_owned())
    );
    assert_eq!(Error::Transport("down".to_owned()).message(), None);
}
