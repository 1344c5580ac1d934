use lychee_lib::{Methods, MethodsError};

fn names(methods: &Methods) -> Vec<String> {
    methods.iter()
}

#[test]
fn methods_from_str_cases() {
    let cases: [(&str, Vec<&str>); 5] = [
        ("get", vec!["GET"]),
        ("HEAD", vec!["HEAD"]),
        ("head,get", vec!["HEAD", "GET"]),
        ("head, get", vec!["HEAD", "GET"]),
        (" head , get ", vec!["HEAD", "GET"]),
    ];
    for (input, expected) in cases {
        let methods = Methods::from_str(input).unwrap();
        assert_eq!(names(&methods), expected);
    }
}

#[test]
fn test_from_str_empty_is_error() {
    assert_eq!(Methods::from_str(""), Err(MethodsError::Empty));
    assert_eq!(Methods::from_str("  ,  "), Err(MethodsError::Empty));
}

#[test]
fn test_from_str_invalid_method() {
    assert_eq!(
        Methods::from_str("ge t"),
        Err(MethodsError::InvalidMethod("ge t".to_string()))
    );
}

#[test]
fn test_try_from_empty_vec_is_error() {
    assert_eq!(Methods::try_from(Vec::new()), Err(MethodsError::Empty));
}

#[test]
fn test_from_single_method() {
    let methods = Methods::from_method("HEAD".to_string());
    assert_eq!(methods.first(), "HEAD");
    assert_eq!(methods.iter().len(), 1);
}

#[test]
fn test_display() {
    let methods = Methods::from_str("head,get").unwrap();
    assert_eq!(methods.to_string(), "HEAD,GET");
}

#[test]
fn methods_errors_and_extensions() {
    assert_eq!(MethodsError::Empty.to_string(), "at least one HTTP method must be specified");
    assert_eq!(
        MethodsError::InvalidMethod("a b".to_string()).to_string(),
        "invalid HTTP method: a b"
    );
    let custom = Methods::from_str("purge,get").unwrap();
    assert_eq!(custom.first(), "PURGE");
    assert_eq!(Methods::from_str("get,,head"), Err(MethodsError::Empty));
    assert_eq!(
        Methods::from_str("get,h{ad"),
        Err(MethodsError::InvalidMethod("h{ad".to_string()))
    );
    assert_eq!(custom.clone(), custom);
}
