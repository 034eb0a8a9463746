use ygege::encoding::login_form;

#[test]
fn login_form_percent_encodes() {
    assert_eq!(login_form("user", "p4ss"), "id=user&pass=p4ss");
    assert_eq!(login_form("a b&c", "é=~._-"), "id=a%20b%26c&pass=%C3%A9%3D~._-");
}

#[test]
fn encoded_fields_cannot_add_fields() {
    let form = login_form("id=x&pass=y", "&&==");
    assert_eq!(form.matches('&').count(), 1);
    assert_eq!(form.matches('=').count(), 2);
    assert_eq!(form, "id=id%3Dx%26pass%3Dy&pass=%26%26%3D%3D");
}
