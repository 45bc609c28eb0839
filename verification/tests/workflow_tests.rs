use upjar::login::LoginReply;
use upjar::requests::{
    get_existing_jar_request, post_add_jar_request, post_delete_jar_request, post_file_url,
    post_login_request, post_modulo_request,
};
use upjar::resources::Templates;
use upjar::schemas::{
    AccessData, BuilderConfig, JSessionId, LoginResponseBody, ModuloResponseBody,
    PostCriaModuloSchema, Root,
};
use upjar::workflow::{Action, Event, Stage, Upload};

fn templates() -> Templates {
    let mut t = Templates::new();
    t.add(String::from("login.json"), b"{\"u\":\"${{username}}\",\"p\":\"${{password}}\"}".to_vec());
    t.add(
        String::from("postCriaModulo.json"),
        b"{\"d\":\"${{resourceDesc}}\",\"i\":\"${{resourceId}}\"}".to_vec(),
    );
    t.add(String::from("getJar.json"), b"{\"f\":\"${{fileName}}\",\"m\":\"${{codModulo}}\"}".to_vec());
    t.add(String::from("postDeleteJar.json"), b"{\"m\":\"${{codModulo}}\",\"j\":\"${{codJar}}\"}".to_vec());
    t.add(
        String::from("postModulo.json"),
        b"{\"m\":\"${{codModulo}}\",\"k\":\"${{moduleId}}\",\"f\":\"${{fileName}}\"}".to_vec(),
    );
    t
}

fn config(url: &str, jar: &str) -> BuilderConfig {
    BuilderConfig {
        url: String::from(url),
        user: String::from("ana"),
        password: String::from("s3cret"),
        jar_file_path: String::from(jar),
        resource_id: String::from("MEUMOD"),
        resource_desc: String::from("Meu modulo"),
    }
}

fn login_ok(token: &str) -> Event {
    Event::LoginDone(LoginReply::Answered {
        body: String::from("{}"),
        root: Ok(Root { response_body: LoginResponseBody { jsessionid: JSessionId { field: String::from(token) } } }),
    })
}

fn reply(status: Option<&str>, rows: Vec<Vec<&str>>) -> PostCriaModuloSchema {
    PostCriaModuloSchema {
        status_message: status.map(String::from),
        response_body: Some(ModuloResponseBody {
            result: rows.into_iter().map(|r| r.into_iter().map(String::from).collect()).collect(),
        }),
    }
}

fn expect_request(a: Action) -> (String, String) {
    match a {
        Action::Login(r) | Action::CreateModule(r) | Action::FindJar(r) | Action::AddJar(r) => (r.url, r.body),
        Action::DeleteJar { request, .. } => (request.url, request.body),
        _ => panic!("a request was expected"),
    }
}

#[test]
fn upload_replaces_an_existing_jar() {
    let t = templates();
    let mut u = Upload::new(config("http://erp:8180", "/tmp/build/ext.jar"));
    let (url, body) = expect_request(u.step(&t, Event::Begin));
    assert_eq!(url, "http://erp:8180//mge/service.sbr?serviceName=MobileLoginSP.login&outputType=json");
    assert_eq!(body, "{\"u\":\"ana\",\"p\":\"s3cret\"}");
    assert_eq!(u.stage, Stage::LoggingIn);

    let (url, body) = expect_request(u.step(&t, login_ok("SESS")));
    assert_eq!(url, "http://erp:8180/mge/service.sbr?serviceName=DatasetSP.save&outputType=json&mgeSession=SESS");
    assert_eq!(body, "{\"d\":\"Meu modulo\",\"i\":\"MEUMOD\"}");

    match u.step(&t, Event::ModuleSaved(reply(None, vec![vec!["12"]]))) {
        Action::UploadJar { url, path, file_name } => {
            assert_eq!(
                url,
                "http://erp:8180/mge/sessionUpload.mge?sessionkey=ModuloJava&fitem=S&salvar=S&useCache=N&mgeSession=SESS"
            );
            assert_eq!(path, "/tmp/build/ext.jar");
            assert_eq!(file_name, "ext.jar");
        }
        _ => panic!("upload expected"),
    }

    let (url, body) = expect_request(u.step(&t, Event::JarUploaded));
    assert_eq!(url, "http://erp:8180/mge/service.sbr?serviceName=DatasetSP.loadRecords&outputType=json&mgeSession=SESS");
    assert_eq!(body, "{\"f\":\"ext.jar\",\"m\":\"12\"}");

    match u.step(&t, Event::JarSearched(reply(None, vec![vec!["12", "99"]]))) {
        Action::DeleteJar { request, cod_jar } => {
            assert_eq!(cod_jar, "99");
            assert_eq!(
                request.url,
                "http://erp:8180/mge/service.sbr?serviceName=DatasetSP.removeRecord&outputType=json&mgeSession=SESS"
            );
            assert_eq!(request.body, "{\"m\":\"12\",\"j\":\"99\"}");
        }
        _ => panic!("delete expected"),
    }

    let (url, body) = expect_request(u.step(&t, Event::JarDeleted));
    assert_eq!(url, "http://erp:8180/mge/service.sbr?serviceName=DatasetSP.save&outputType=json&mgeSession=SESS");
    assert_eq!(body, "{\"m\":\"12\",\"k\":\"ModuloJava\",\"f\":\"ext.jar\"}");

    assert!(matches!(u.step(&t, Event::JarAdded), Action::Logout));
    match u.step(&t, Event::LoggedOut) {
        Action::Finish(Ok(id)) => assert_eq!(id, "12"),
        _ => panic!("finish expected"),
    }
    assert_eq!(u.stage, Stage::Done);
}

#[test]
fn upload_without_existing_jar_adds_directly() {
    let t = templates();
    let mut u = Upload::new(config("http://erp/", "ext.jar"));
    u.step(&t, Event::Begin);
    let (url, _) = expect_request(u.step(&t, login_ok("S")));
    assert_eq!(url, "http://erp/mge/service.sbr?serviceName=DatasetSP.save&outputType=json&mgeSession=S");
    u.step(&t, Event::ModuleSaved(reply(None, vec![vec!["3"]])));
    u.step(&t, Event::JarUploaded);
    match u.step(&t, Event::JarSearched(reply(None, vec![]))) {
        Action::AddJar(r) => assert_eq!(r.body, "{\"m\":\"3\",\"k\":\"ModuloJava\",\"f\":\"ext.jar\"}"),
        _ => panic!("add expected"),
    }
    assert_eq!(u.stage, Stage::AddingJar);
}

#[test]
fn invalid_url_fails_the_login() {
    let t = templates();
    let mut u = Upload::new(config("erp sem esquema", "ext.jar"));
    match u.step(&t, Event::Begin) {
        Action::Finish(Err(e)) => assert_eq!(
            e,
            "{\"message\":\"relative URL without a base\",\"retBody\":\"relative URL without a base\"}"
        ),
        _ => panic!("failure expected"),
    }
    assert_eq!(u.stage, Stage::Failed);
}

#[test]
fn empty_url_fails_the_login() {
    let t = templates();
    let mut u = Upload::new(config("", "ext.jar"));
    assert!(matches!(u.step(&t, Event::Begin), Action::Finish(Err(_))));
    assert_eq!(u.stage, Stage::Failed);
}

#[test]
fn unreachable_server_fails_the_login() {
    let t = templates();
    let mut u = Upload::new(config("http://erp", "ext.jar"));
    u.step(&t, Event::Begin);
    match u.step(&t, Event::LoginDone(LoginReply::Unreachable(String::from("timeout")))) {
        Action::Finish(Err(e)) => assert_eq!(e, "{\"message\":\"timeout\",\"retBody\":\"timeout\"}"),
        _ => panic!("failure expected"),
    }
}

#[test]
fn undecodable_login_reply_fails_with_the_body() {
    let t = templates();
    let mut u = Upload::new(config("http://erp", "ext.jar"));
    u.step(&t, Event::Begin);
    let ev = Event::LoginDone(LoginReply::Answered { body: String::from("oops"), root: Err(String::from("bad")) });
    match u.step(&t, ev) {
        Action::Finish(Err(e)) => assert_eq!(e, "{\"message\":\"bad\",\"retBody\":\"oops\"}"),
        _ => panic!("failure expected"),
    }
}

#[test]
fn status_message_looks_up_the_module() {
    let t = templates();
    let mut u = Upload::new(config("http://erp", "lib/x.jar"));
    u.step(&t, Event::Begin);
    u.step(&t, login_ok("S"));
    assert!(matches!(u.step(&t, Event::ModuleSaved(reply(Some("duplicado"), vec![]))), Action::FindModule));
    assert_eq!(u.stage, Stage::LookingUpModule);
    match u.step(&t, Event::ModuleFound(Some(Ok(String::from("40"))))) {
        Action::UploadJar { file_name, .. } => assert_eq!(file_name, "x.jar"),
        _ => panic!("upload expected"),
    }
    assert_eq!(u.module_id, "40");
}

#[test]
fn module_lookup_error_is_reported_as_json_text() {
    let t = templates();
    let mut u = Upload::new(config("http://erp", "x.jar"));
    u.step(&t, Event::Begin);
    u.step(&t, login_ok("S"));
    u.step(&t, Event::ModuleSaved(reply(Some("erro"), vec![])));
    match u.step(&t, Event::ModuleFound(Some(Err(String::from("não achou"))))) {
        Action::Finish(Err(e)) => assert_eq!(e, "\"não achou\""),
        _ => panic!("failure expected"),
    }
}

#[test]
fn module_lookup_without_result_uses_the_save_reply() {
    let t = templates();
    let mut u = Upload::new(config("http://erp", "x.jar"));
    u.step(&t, Event::Begin);
    u.step(&t, login_ok("S"));
    u.step(&t, Event::ModuleSaved(reply(Some("aviso"), vec![vec!["8"]])));
    assert!(matches!(u.step(&t, Event::ModuleFound(None)), Action::UploadJar { .. }));
    assert_eq!(u.module_id, "8");
    let mut v = Upload::new(config("http://erp", "x.jar"));
    v.step(&t, Event::Begin);
    v.step(&t, login_ok("S"));
    v.step(&t, Event::ModuleSaved(reply(Some("aviso"), vec![])));
    match v.step(&t, Event::ModuleFound(None)) {
        Action::Abort(m) => assert_eq!(m, "called `Option::unwrap()` on a `None` value"),
        _ => panic!("abort expected"),
    }
}

#[test]
fn jar_path_without_file_name_aborts() {
    let t = templates();
    let mut u = Upload::new(config("http://erp", "/"));
    u.step(&t, Event::Begin);
    u.step(&t, login_ok("S"));
    match u.step(&t, Event::ModuleSaved(reply(None, vec![vec!["1"]]))) {
        Action::Abort(m) => assert_eq!(m, "Error getting file_name"),
        _ => panic!("abort expected"),
    }
    assert_eq!(u.stage, Stage::Failed);
}

#[test]
fn malformed_jar_search_aborts() {
    let t = templates();
    let mut u = Upload::new(config("http://erp", "x.jar"));
    u.step(&t, Event::Begin);
    u.step(&t, login_ok("S"));
    u.step(&t, Event::ModuleSaved(reply(None, vec![vec!["1"]])));
    u.step(&t, Event::JarUploaded);
    let bad = PostCriaModuloSchema { status_message: None, response_body: None };
    assert!(matches!(u.step(&t, Event::JarSearched(bad)), Action::Abort(_)));
    assert_eq!(u.stage, Stage::Failed);
}

#[test]
fn request_builders_fill_their_templates() {
    let t = templates();
    let c = config("http://erp", "d/x.jar");
    let access = AccessData { username: String::from("a"), password: String::from("b") };
    assert_eq!(post_login_request(&t, "http://erp/", &access).body, "{\"u\":\"a\",\"p\":\"b\"}");
    assert_eq!(post_modulo_request(&t, &c, "T", 'p').body, "{\"d\":\"Meu modulo\",\"i\":\"MEUMOD\"}");
    assert_eq!(
        post_file_url(&c, "T", 'p'),
        "http://erp/mge/sessionUpload.mge?sessionkey=ModuloJava&fitem=S&salvar=S&useCache=N&mgeSession=T"
    );
    assert_eq!(get_existing_jar_request(&t, &c, "T", 'p', "5", "x.jar").body, "{\"f\":\"x.jar\",\"m\":\"5\"}");
    assert_eq!(post_delete_jar_request(&t, &c, "T", 'p', "5", "6").body, "{\"m\":\"5\",\"j\":\"6\"}");
    assert_eq!(
        post_add_jar_request(&t, &c, "T", 'p', "5", "x.jar").body,
        "{\"m\":\"5\",\"k\":\"ModuloJava\",\"f\":\"x.jar\"}"
    );
}
