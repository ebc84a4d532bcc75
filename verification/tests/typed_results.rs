use aragog::query_result::{collect_all, collect_present, typed_result, JsonQueryResult};
use aragog::record::{Authenticate, DatabaseRecord, Record};
use aragog::{RecordQueryResult, ServiceError};

#[derive(Clone, Debug, PartialEq)]
struct Character {
    name: String,
    surname: String,
}

impl Record for Character {
    fn collection_name() -> String {
        "Characters".to_string()
    }
}

impl<'de> serde::Deserialize<'de> for Character {
    fn deserialize<D: serde::Deserializer<'de>>(deserializer: D) -> Result<Self, D::Error> {
        let v = serde_json::Value::deserialize(deserializer)?;
        let name = v
            .get("name")
            .and_then(|x| x.as_str())
            .ok_or_else(|| serde::de::Error::custom("name missing"))?
            .to_string();
        let surname = v
            .get("surname")
            .and_then(|x| x.as_str())
            .ok_or_else(|| serde::de::Error::custom("surname missing"))?
            .to_string();
        Ok(Character { name, surname })
    }
}

fn character(name: &str, surname: &str) -> Character {
    Character { name: name.to_string(), surname: surname.to_string() }
}

fn doc(key: &str, name: &str, surname: &str) -> serde_json::Value {
    let text = format!(
        "{{\"_key\":\"{}\",\"name\":\"{}\",\"surname\":\"{}\"}}",
        key, name, surname
    );
    serde_json::from_str(&text).expect("fixture document should parse")
}

fn stark_children() -> Vec<serde_json::Value> {
    vec![
        doc("robb", "Robb", "Stark"),
        doc("sansa", "Sansa", "Stark"),
        doc("arya", "Arya", "Stark"),
        doc("bran", "Bran", "Stark"),
    ]
}

#[test]
fn get_records_keeps_documents_in_server_order() {
    let results = JsonQueryResult::new(stark_children());
    assert_eq!(results.len(), 4);
    assert!(!results.is_empty());
    let records = results.get_records::<Character>();
    let keys: Vec<&str> = records.iter().map(|r| r.key.as_str()).collect();
    assert_eq!(keys, vec!["robb", "sansa", "arya", "bran"]);
    assert_eq!(records[0].record, character("Robb", "Stark"));
}

#[test]
fn get_records_drops_what_does_not_parse() {
    let mut docs = stark_children();
    // a document of another shape: no surname field
    docs.insert(2, serde_json::from_str("{\"_key\":\"x1\",\"name\":\"Ghost\"}").unwrap());
    // a document without a key
    docs.push(serde_json::from_str("{\"name\":\"NoKey\",\"surname\":\"None\"}").unwrap());
    let results = JsonQueryResult::new(docs);
    let records = results.get_records::<Character>();
    let keys: Vec<&str> = records.iter().map(|r| r.key.as_str()).collect();
    assert_eq!(keys, vec!["robb", "sansa", "arya", "bran"]);
}

#[test]
fn typed_result_succeeds_on_an_empty_result() {
    let results = JsonQueryResult::new(vec![]);
    let typed = typed_result::<Character>(&results).expect("nothing to parse");
    assert_eq!(typed.len(), 0);
    assert!(typed.is_empty());
}

#[test]
fn typed_result_is_all_or_nothing() {
    let results = JsonQueryResult::new(stark_children());
    let typed = typed_result::<Character>(&results).expect("all documents parse");
    assert_eq!(typed.len(), 4);
    let mut docs = stark_children();
    docs.push(serde_json::from_str("{\"_key\":\"x1\",\"name\":\"Ghost\"}").unwrap());
    let results = JsonQueryResult::new(docs);
    match typed_result::<Character>(&results) {
        Err(ServiceError::DeserializationError(_)) => {}
        other => panic!("one bad document must fail the typed result: {:?}", other),
    }
}

#[test]
fn uniq_requires_exactly_one_document() {
    let empty: RecordQueryResult<Character> = RecordQueryResult::new(vec![]);
    match empty.uniq() {
        Err(ServiceError::NotFound { item, id }) => {
            assert_eq!(item, "Characters");
            assert_eq!(id, "queried");
        }
        other => panic!("zero documents must be NotFound: {:?}", other),
    }
    let two = RecordQueryResult::new(vec![
        DatabaseRecord::new("a".to_string(), character("Arya", "Stark")),
        DatabaseRecord::new("b".to_string(), character("Bran", "Stark")),
    ]);
    match two.uniq() {
        Err(ServiceError::NotFound { item, .. }) => assert_eq!(item, "Characters"),
        other => panic!("two documents must be NotFound: {:?}", other),
    }
    let one = RecordQueryResult::new(vec![DatabaseRecord::new(
        "a".to_string(),
        character("Arya", "Stark"),
    )]);
    let found = one.uniq().expect("exactly one document");
    assert_eq!(found.key, "a");
}

#[test]
fn first_and_last_return_empty_signals_not_errors() {
    let empty: RecordQueryResult<Character> = RecordQueryResult::new(vec![]);
    assert!(empty.first().is_none());
    let empty: RecordQueryResult<Character> = RecordQueryResult::new(vec![]);
    assert!(empty.last().is_none());
    let two = || {
        RecordQueryResult::new(vec![
            DatabaseRecord::new("a".to_string(), character("Arya", "Stark")),
            DatabaseRecord::new("b".to_string(), character("Bran", "Stark")),
        ])
    };
    assert_eq!(two().first().unwrap().key, "a");
    assert_eq!(two().last().unwrap().key, "b");
    assert_eq!(two().len(), 2);
    assert!(!two().is_empty());
}

impl Authenticate for Character {
    fn authenticate(&self, password: &str) -> Result<(), ServiceError> {
        if password == self.surname {
            Ok(())
        } else {
            Err(ServiceError::NotFound { item: "password".to_string(), id: self.name.clone() })
        }
    }
}

#[test]
fn authenticate_passes_through_to_the_record() {
    let arya = DatabaseRecord::new("a".to_string(), character("Arya", "Stark"));
    assert!(arya.authenticate("Stark").is_ok());
    assert!(arya.authenticate("Lannister").is_err());
}

#[test]
fn collectors_keep_or_reject_exactly() {
    let mut parsed = vec![Some(1), None, Some(3), None];
    assert_eq!(collect_present(&mut parsed), vec![1, 3]);
    let mut parsed = vec![Some(1), None, Some(3)];
    assert!(matches!(
        collect_all(&mut parsed),
        Err(ServiceError::DeserializationError(_))
    ));
    let mut parsed = vec![Some(1), Some(2), Some(3)];
    assert_eq!(collect_all(&mut parsed).unwrap(), vec![1, 2, 3]);
    let mut parsed: Vec<Option<i32>> = vec![];
    assert_eq!(collect_all(&mut parsed).unwrap(), Vec::<i32>::new());
}
