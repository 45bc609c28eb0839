use upjar::endpoint::{last_char, login_url, service_url, SAVE_ENDPOINT, UPLOAD_ENDPOINT};

#[test]
fn service_url_adds_a_slash() {
    let r = service_url("http://host:8180", 'o', SAVE_ENDPOINT, "TOKEN");
    assert_eq!(
        r,
        "http://host:8180/mge/service.sbr?serviceName=DatasetSP.save&outputType=json&mgeSession=TOKEN"
    );
}

#[test]
fn service_url_keeps_a_trailing_slash() {
    let r = service_url("http://host:8180/", '/', UPLOAD_ENDPOINT, "T1");
    assert_eq!(
        r,
        "http://host:8180/mge/sessionUpload.mge?sessionkey=ModuloJava&fitem=S&salvar=S&useCache=N&mgeSession=T1"
    );
}

#[test]
fn service_url_single_slash_either_way() {
    let a = service_url("http://h/", last_char("http://h/"), "e?x=", "t");
    let b = service_url("http://h", last_char("http://h"), "e?x=", "t");
    assert_eq!(a, "http://h/e?x=t");
    assert_eq!(b, "http://h/e?x=t");
    assert!(!a.contains("//e"));
}

#[test]
fn last_char_of_url() {
    assert_eq!(last_char("http://a/"), '/');
    assert_eq!(last_char("http://ação"), 'o');
}

#[test]
fn login_url_appends_the_login_path() {
    assert_eq!(
        login_url("http://host:8180/"),
        "http://host:8180//mge/service.sbr?serviceName=MobileLoginSP.login&outputType=json"
    );
}
