use recipe_ops::parameters::prepared_u64;
use recipe_ops::{OperationErrorKind, PreparedParameter, PreparedParameters};

#[test]
fn inserted_parameters_are_found_by_name() {
    let mut parameters = PreparedParameters::new();
    assert_eq!(parameters.len(), 0);
    assert_eq!(parameters.get("rounds"), None);
    parameters.insert("rounds".to_owned(), PreparedParameter::U64(4));
    parameters.insert("scale".to_owned(), PreparedParameter::F32Bits(0x3f80_0000));
    assert_eq!(parameters.len(), 2);
    assert_eq!(parameters.get("rounds"), Some(PreparedParameter::U64(4)));
    assert_eq!(parameters.get("scale"), Some(PreparedParameter::F32Bits(0x3f80_0000)));
    parameters.insert("rounds".to_owned(), PreparedParameter::I32(-1));
    assert_eq!(parameters.len(), 2);
    assert_eq!(parameters.get("rounds"), Some(PreparedParameter::I32(-1)));
    assert_eq!(parameters.get("scale"), Some(PreparedParameter::F32Bits(0x3f80_0000)));
    let mut names = (0..parameters.len()).map(|index| parameters.name(index).to_owned()).collect::<Vec<_>>();
    names.sort();
    assert_eq!(names, ["rounds", "scale"]);
}

#[test]
fn unsigned_parameters_are_typed() {
    let mut parameters = PreparedParameters::new();
    parameters.insert("rounds".to_owned(), PreparedParameter::U64(4));
    parameters.insert("flag".to_owned(), PreparedParameter::Bool(true));
    assert_eq!(prepared_u64(&parameters, "rounds"), Ok(4));
    assert_eq!(prepared_u64(&parameters, "flag").unwrap_err().kind, OperationErrorKind::PreparedParameterTypeMismatch);
    assert_eq!(prepared_u64(&parameters, "missing").unwrap_err().kind, OperationErrorKind::MissingPreparedParameter);
}
