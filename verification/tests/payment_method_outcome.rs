use domain::value_objects::expiration::Expiration;
use domain::value_objects::payment_method::outcome::{boleto::BoletoData, pix::PixData};

fn expiration() -> Expiration {
    Expiration::from_rfc3339("2030-01-01T12:00:00Z").unwrap()
}

fn boleto_data_valid() -> BoletoData {
    BoletoData::new(
        "34191790010104351004791020150008291070026000",
        "34191.79001 01043.510047 91020.150008 2 91070026000",
        Some("https://example.com/boleto.pdf".to_string()),
        expiration(),
    )
}

fn pix_data_valid() -> PixData {
    PixData::new(
        "qr_code",
        Some("qr_code_base64"),
        Some("https://example.com/qr"),
        expiration(),
    )
}

#[test]
fn should_create_boleto_data() {
    let boleto = boleto_data_valid();

    assert_eq!(
        boleto.barcode(),
        "34191790010104351004791020150008291070026000"
    );

    assert_eq!(
        boleto.digitable_line(),
        "34191.79001 01043.510047 91020.150008 2 91070026000"
    );

    assert_eq!(
        boleto.pdf_url(),
        Some("https://example.com/boleto.pdf")
    );
}

#[test]
fn should_create_boleto_data_without_pdf_url() {
    let boleto = BoletoData::new(
        "123456",
        "123.456",
        None,
        expiration(),
    );

    assert_eq!(boleto.barcode(), "123456");
    assert_eq!(boleto.digitable_line(), "123.456");
    assert_eq!(boleto.pdf_url(), None);
}

#[test]
fn should_return_expiration() {
    let expiration = expiration();

    let boleto = BoletoData::new(
        "123456",
        "123.456",
        None,
        expiration.clone(),
    );

    assert_eq!(boleto.expires_at(), &expiration);
}

#[test]
fn should_preserve_barcode() {
    let barcode = "12345678901234567890";

    let boleto = BoletoData::new(
        barcode,
        "linha",
        None,
        expiration(),
    );

    assert_eq!(boleto.barcode(), barcode);
}

#[test]
fn should_preserve_digitable_line() {
    let line = "00190.00009 01234.567890 12345.678901 1 12340000010000";

    let boleto = BoletoData::new(
        "123456",
        line,
        None,
        expiration(),
    );

    assert_eq!(boleto.digitable_line(), line);
}

#[test]
fn should_return_pdf_url_when_present() {
    let boleto = boleto_data_valid();

    assert_eq!(
        boleto.pdf_url(),
        Some("https://example.com/boleto.pdf")
    );
}

#[test]
fn should_create_pix_data() {
    let pix = pix_data_valid();

    assert_eq!(pix.qr_code(), "qr_code");
    assert_eq!(pix.qr_code_base64(), Some("qr_code_base64"));
    assert_eq!(pix.qr_code_url(), Some("https://example.com/qr"));
}

#[test]
fn should_create_pix_data_without_base64() {
    let pix = PixData::new(
        "qr_code",
        None,
        Some("https://example.com/qr"),
        expiration(),
    );

    assert_eq!(pix.qr_code(), "qr_code");
    assert_eq!(pix.qr_code_base64(), None);
    assert_eq!(pix.qr_code_url(), Some("https://example.com/qr"));
}

#[test]
fn should_create_pix_data_without_url() {
    let pix = PixData::new(
        "qr_code",
        Some("qr_code_base64"),
        None,
        expiration(),
    );

    assert_eq!(pix.qr_code(), "qr_code");
    assert_eq!(pix.qr_code_base64(), Some("qr_code_base64"));
    assert_eq!(pix.qr_code_url(), None);
}

#[test]
fn should_create_pix_data_without_optional_fields() {
    let pix = PixData::new(
        "qr_code",
        None,
        None,
        expiration(),
    );

    assert_eq!(pix.qr_code(), "qr_code");
    assert_eq!(pix.qr_code_base64(), None);
    assert_eq!(pix.qr_code_url(), None);
}

#[test]
fn pix_should_return_expiration() {
    let expiration = expiration();

    let pix = PixData::new(
        "qr_code",
        None,
        None,
        expiration.clone(),
    );

    assert_eq!(pix.expires_at(), &expiration);
}

#[test]
fn should_preserve_qr_code_value() {
    let qr = "00020101021226850014BR.GOV.BCB.PIX";

    let pix = PixData::new(
        qr,
        None,
        None,
        expiration(),
    );

    assert_eq!(pix.qr_code(), qr);
}
