use domain::value_objects::payer::document::{Document, DocumentType};
use domain::value_objects::payer::email::Email;
use domain::value_objects::payer::name::Name;
use domain::value_objects::payer::payer::Payer;

#[test]
fn payer_keeps_its_parts() {
    let payer = Payer::new(
        Name::new("Maria da Silva").unwrap(),
        Email::new("Maria@Example.com").unwrap(),
        Document::new("529.982.247-25", DocumentType::Cpf).unwrap(),
    );

    assert_eq!(payer.name().as_str(), "Maria da Silva");
    assert_eq!(payer.email().as_str(), "maria@example.com");
    assert_eq!(payer.document().number(), "52998224725");
    assert_eq!(payer.document().document_type(), &DocumentType::Cpf);
}

#[test]
fn name_length_counts_bytes() {
    // two characters, three bytes of UTF-8
    assert_eq!(Name::new("Zé").unwrap().as_str(), "Zé");
    // three characters, three bytes
    assert!(Name::new("Zed").is_ok());
    // sixty two-byte letters make 120 bytes; one more is too long
    let sixty = "é".repeat(60);
    assert!(Name::new(&sixty).is_ok());
    let sixty_one = "é".repeat(61);
    assert!(Name::new(&sixty_one).is_err());
}

#[test]
fn name_trims_unicode_white_space() {
    assert_eq!(Name::new("\u{3000}\tAna Maria\n").unwrap().as_str(), "Ana Maria");
}

#[test]
fn name_rejects_a_tab_beside_a_space() {
    assert!(Name::new("Ana \tMaria").is_err());
}

#[test]
fn kept_name_is_accepted_again_unchanged() {
    let name = Name::new("  Anne-Marie O'Neil ").unwrap();

    let again = Name::new(name.as_str()).unwrap();

    assert_eq!(again.as_str(), name.as_str());
}

#[test]
fn email_splits_at_the_first_at_sign() {
    assert_eq!(Email::new("a@b@c.com").unwrap().as_str(), "a@b@c.com");
    assert!(Email::new("a@b@c").is_err());
}

#[test]
fn email_lowercases_beyond_ascii() {
    assert_eq!(Email::new("ÉLISE@EXAMPLE.COM").unwrap().as_str(), "élise@example.com");
}

#[test]
fn email_rejects_a_dot_only_before_the_at_sign() {
    assert!(Email::new("john.doe@example").is_err());
}

#[test]
fn document_accepts_another_valid_cnpj() {
    let document = Document::new("11.222.333/0001-81", DocumentType::Cnpj).unwrap();

    assert_eq!(document.number(), "11222333000181");
}

#[test]
fn document_type_must_match_the_number() {
    assert!(Document::new("52998224725", DocumentType::Cnpj).is_err());
    assert!(Document::new("11444777000161", DocumentType::Cpf).is_err());
}

#[test]
fn kept_document_number_is_accepted_again() {
    let document = Document::new("11.444.777/0001-61", DocumentType::Cnpj).unwrap();

    let again = Document::new(document.number(), DocumentType::Cnpj).unwrap();

    assert_eq!(again, document);
}

#[test]
fn document_type_rejects_near_misses() {
    assert!(DocumentType::new("cp f").is_err());
    assert!(DocumentType::new("cpfs").is_err());
    assert!(DocumentType::new("").is_err());
    assert_eq!(DocumentType::new("\tCnPj\n").unwrap(), DocumentType::Cnpj);
}
