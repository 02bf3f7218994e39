use domain::value_objects::error::ValidationError;
use domain::value_objects::payer::document::{validar_cnpj, validar_cpf, Document, DocumentType};

#[test]
fn should_create_cpf_document_type() {
    let result = DocumentType::new("cpf");

    assert_eq!(result.unwrap(), DocumentType::Cpf);
}

#[test]
fn should_create_cnpj_document_type() {
    let result = DocumentType::new("cnpj");

    assert_eq!(result.unwrap(), DocumentType::Cnpj);
}

#[test]
fn should_ignore_case_when_creating_document_type() {
    let result = DocumentType::new("CPF");

    assert_eq!(result.unwrap(), DocumentType::Cpf);
}

#[test]
fn should_trim_spaces_when_creating_document_type() {
    let result = DocumentType::new("  cnpj  ");

    assert_eq!(result.unwrap(), DocumentType::Cnpj);
}

#[test]
fn should_reject_invalid_document_type() {
    let result = DocumentType::new("passport");

    assert!(matches!(result, Err(ValidationError::InvalidDocument)));
}

#[test]
fn should_accept_valid_cpf() {
    assert!(validar_cpf("52998224725").is_ok());
}

#[test]
fn should_accept_formatted_cpf() {
    assert!(validar_cpf("529.982.247-25").is_ok());
}

#[test]
fn should_reject_invalid_check_digits() {
    assert!(matches!(
        validar_cpf("52998224724"),
        Err(ValidationError::InvalidDocument)
    ));
}

#[test]
fn should_reject_invalid_length() {
    assert!(matches!(
        validar_cpf("123456789"),
        Err(ValidationError::InvalidDocument)
    ));
}

#[test]
fn should_reject_all_equal_digits() {
    assert!(matches!(
        validar_cpf("11111111111"),
        Err(ValidationError::InvalidDocument)
    ));
}

#[test]
fn should_reject_letters() {
    assert!(matches!(
        validar_cpf("52998224A25"),
        Err(ValidationError::InvalidDocument)
    ));
}

#[test]
fn should_accept_valid_cnpj() {
    assert!(validar_cnpj("11444777000161").is_ok());
}

#[test]
fn should_accept_formatted_cnpj() {
    assert!(validar_cnpj("11.444.777/0001-61").is_ok());
}

#[test]
fn document_should_reject_invalid_check_digits() {
    assert!(matches!(
        validar_cnpj("11444777000160"),
        Err(ValidationError::InvalidDocument)
    ));
}

#[test]
fn document_should_reject_invalid_length() {
    assert!(matches!(
        validar_cnpj("123"),
        Err(ValidationError::InvalidDocument)
    ));
}

#[test]
fn document_should_reject_all_equal_digits() {
    assert!(matches!(
        validar_cnpj("11111111111111"),
        Err(ValidationError::InvalidDocument)
    ));
}

#[test]
fn document_should_reject_letters() {
    assert!(matches!(
        validar_cnpj("1144477700016A"),
        Err(ValidationError::InvalidDocument)
    ));
}

#[test]
fn should_create_document_with_valid_cpf() {
    let document =
        Document::new("529.982.247-25", DocumentType::Cpf).unwrap();

    assert_eq!(document.number(), "52998224725");
    assert_eq!(document.document_type(), &DocumentType::Cpf);
}

#[test]
fn should_create_document_with_valid_cnpj() {
    let document =
        Document::new("11.444.777/0001-61", DocumentType::Cnpj).unwrap();

    assert_eq!(document.number(), "11444777000161");
    assert_eq!(document.document_type(), &DocumentType::Cnpj);
}

#[test]
fn should_normalize_document_number() {
    let document =
        Document::new("529.982.247-25", DocumentType::Cpf).unwrap();

    assert_eq!(document.number(), "52998224725");
}

#[test]
fn should_reject_invalid_cpf() {
    let result =
        Document::new("11111111111", DocumentType::Cpf);

    assert!(matches!(result, Err(ValidationError::InvalidDocument)));
}

#[test]
fn should_reject_invalid_cnpj() {
    let result =
        Document::new("11111111111111", DocumentType::Cnpj);

    assert!(matches!(result, Err(ValidationError::InvalidDocument)));
}

#[test]
fn kept_number_is_all_digits_and_valid_again() {
    let cpf = Document::new("529.982.247-25", DocumentType::Cpf).unwrap();
    assert!(cpf.number().chars().all(|c| c.is_ascii_digit()));
    assert_eq!(cpf.number().len(), 11);
    assert_eq!(validar_cpf(cpf.number()), Ok(()));

    let cnpj = Document::new("11.444.777/0001-61", DocumentType::Cnpj).unwrap();
    assert_eq!(cnpj.number(), "11444777000161");
    assert_eq!(validar_cnpj(cnpj.number()), Ok(()));
}
