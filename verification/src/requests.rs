//! The requests that the tool sends: their addresses and their bodies,
//! filled in from the request templates.
use vstd::prelude::*;
use vstd::string::*;
use crate::endpoint::{
    LOAD_ENDPOINT, REMOVE_ENDPOINT, SAVE_ENDPOINT, UPLOAD_ENDPOINT, login_url, login_url_spec,
    service_url, service_url_spec,
};
use crate::resources::{Templates, get_json, has_text, text_of};
use crate::schemas::{AccessData, BuilderConfig};
use crate::template::{
    lemma_fill_single_placeholder, lemma_fill_without_placeholder, no_dollar, occurs_in, placeholder,
    replace_all, replace_param,
};

verus! {

/// Template of the login request.
pub const LOGIN_TEMPLATE: &'static str = "login.json";

/// Template of the request that creates the module.
pub const CREATE_MODULE_TEMPLATE: &'static str = "postCriaModulo.json";

/// Template of the request that looks for a jar in the module.
pub const FIND_JAR_TEMPLATE: &'static str = "getJar.json";

/// Template of the request that deletes a jar of the module.
pub const DELETE_JAR_TEMPLATE: &'static str = "postDeleteJar.json";

/// Template of the request that adds the jar to the module.
pub const ADD_JAR_TEMPLATE: &'static str = "postModulo.json";

/// The module kind written into the request that adds a jar.
pub const MODULE_KIND: &'static str = "ModuloJava";

/// A POST request: its address and its body.
#[derive(Clone, Debug)]
pub struct HttpRequest {
    pub url: String,
    pub body: String,
}

/// `text` with the placeholder of `param` replaced by `value`.
pub open spec fn fill(text: Seq<char>, param: Seq<char>, value: Seq<char>) -> Seq<char> {
    replace_all(text, placeholder(param), value)
}

/// Whether every template that the upload uses is present and readable.
pub open spec fn templates_ready(files: Seq<(Seq<char>, Seq<u8>)>) -> bool {
    &&& has_text(files, LOGIN_TEMPLATE@)
    &&& has_text(files, CREATE_MODULE_TEMPLATE@)
    &&& has_text(files, FIND_JAR_TEMPLATE@)
    &&& has_text(files, DELETE_JAR_TEMPLATE@)
    &&& has_text(files, ADD_JAR_TEMPLATE@)
}

/// What `std::path::Path::file_name` gives for a path: its last component,
/// unless the path ends in `..` or is a root or empty.
pub uninterp spec fn path_file_name(path: Seq<char>) -> Option<Seq<char>>;

/// The file name of a path (`Path::file_name`, taken as a string).
#[verifier::external_body]
pub(crate) fn file_name_of(path: &str) -> (r: Option<String>)
    ensures
        match r {
            Some(n) => path_file_name(path@) == Some(n@),
            None => path_file_name(path@) is None,
        },
{
    match std::path::Path::new(path).file_name() {
        Some(n) => n.to_str().map(String::from),
        None => None,
    }
}

/// The body of the login request.
pub open spec fn login_body(files: Seq<(Seq<char>, Seq<u8>)>, user: Seq<char>, password: Seq<char>) -> Seq<char> {
    fill(fill(text_of(files, LOGIN_TEMPLATE@), "username"@, user), "password"@, password)
}

/// The login request, for the normalised base URL `base`.
pub fn post_login_request(templates: &Templates, base: &str, access: &AccessData) -> (r: HttpRequest)
    requires
        has_text(templates@, LOGIN_TEMPLATE@),
    ensures
        r.url@ == login_url_spec(base@),
        r.body@ == login_body(templates@, access.username@, access.password@),
{
    let mut json = get_json(templates, LOGIN_TEMPLATE);
    json = replace_param(&json, "username", access.username.clone());
    json = replace_param(&json, "password", access.password.clone());
    HttpRequest { url: login_url(base), body: json }
}

/// The body of the request that creates the module.
pub open spec fn create_module_body(files: Seq<(Seq<char>, Seq<u8>)>, desc: Seq<char>, id: Seq<char>) -> Seq<char> {
    fill(fill(text_of(files, CREATE_MODULE_TEMPLATE@), "resourceDesc"@, desc), "resourceId"@, id)
}

/// The request that creates the module named in the configuration.
pub fn post_modulo_request(templates: &Templates, config: &BuilderConfig, token: &str, last_char: char) -> (r: HttpRequest)
    requires
        has_text(templates@, CREATE_MODULE_TEMPLATE@),
    ensures
        r.url@ == service_url_spec(config.url@, last_char, SAVE_ENDPOINT@, token@),
        r.body@ == create_module_body(templates@, config.resource_desc@, config.resource_id@),
{
    let mut json = get_json(templates, CREATE_MODULE_TEMPLATE);
    json = replace_param(&json, "resourceDesc", config.resource_desc.clone());
    json = replace_param(&json, "resourceId", config.resource_id.clone());
    HttpRequest { url: service_url(config.url.as_str(), last_char, SAVE_ENDPOINT, token), body: json }
}

/// The address that receives the jar file.
pub fn post_file_url(config: &BuilderConfig, token: &str, last_char: char) -> (r: String)
    ensures
        r@ == service_url_spec(config.url@, last_char, UPLOAD_ENDPOINT@, token@),
{
    service_url(config.url.as_str(), last_char, UPLOAD_ENDPOINT, token)
}

/// The body of the request that looks for the jar in the module.
pub open spec fn find_jar_body(files: Seq<(Seq<char>, Seq<u8>)>, file_name: Seq<char>, module_id: Seq<char>) -> Seq<char> {
    fill(fill(text_of(files, FIND_JAR_TEMPLATE@), "fileName"@, file_name), "codModulo"@, module_id)
}

/// The request that looks for a jar called `file_name` in the module.
pub fn get_existing_jar_request(
    templates: &Templates,
    config: &BuilderConfig,
    token: &str,
    last_char: char,
    module_id: &str,
    file_name: &str,
) -> (r: HttpRequest)
    requires
        has_text(templates@, FIND_JAR_TEMPLATE@),
    ensures
        r.url@ == service_url_spec(config.url@, last_char, LOAD_ENDPOINT@, token@),
        r.body@ == find_jar_body(templates@, file_name@, module_id@),
{
    let mut json = get_json(templates, FIND_JAR_TEMPLATE);
    json = replace_param(&json, "fileName", String::from_str(file_name));
    json = replace_param(&json, "codModulo", String::from_str(module_id));
    HttpRequest { url: service_url(config.url.as_str(), last_char, LOAD_ENDPOINT, token), body: json }
}

/// The body of the request that deletes a jar of the module.
pub open spec fn delete_jar_body(files: Seq<(Seq<char>, Seq<u8>)>, module_id: Seq<char>, cod_jar: Seq<char>) -> Seq<char> {
    fill(fill(text_of(files, DELETE_JAR_TEMPLATE@), "codModulo"@, module_id), "codJar"@, cod_jar)
}

/// The request that deletes the jar `cod_jar` of the module.
pub fn post_delete_jar_request(
    templates: &Templates,
    config: &BuilderConfig,
    token: &str,
    last_char: char,
    module_id: &str,
    cod_jar: &str,
) -> (r: HttpRequest)
    requires
        has_text(templates@, DELETE_JAR_TEMPLATE@),
    ensures
        r.url@ == service_url_spec(config.url@, last_char, REMOVE_ENDPOINT@, token@),
        r.body@ == delete_jar_body(templates@, module_id@, cod_jar@),
{
    let mut json = get_json(templates, DELETE_JAR_TEMPLATE);
    json = replace_param(&json, "codModulo", String::from_str(module_id));
    json = replace_param(&json, "codJar", String::from_str(cod_jar));
    HttpRequest { url: service_url(config.url.as_str(), last_char, REMOVE_ENDPOINT, token), body: json }
}

/// The body of the request that adds the jar to the module.
pub open spec fn add_jar_body(files: Seq<(Seq<char>, Seq<u8>)>, module_id: Seq<char>, file_name: Seq<char>) -> Seq<char> {
    fill(
        fill(fill(text_of(files, ADD_JAR_TEMPLATE@), "codModulo"@, module_id), "moduleId"@, MODULE_KIND@),
        "fileName"@,
        file_name,
    )
}

/// The request that adds the jar called `file_name` to the module.
pub fn post_add_jar_request(
    templates: &Templates,
    config: &BuilderConfig,
    token: &str,
    last_char: char,
    module_id: &str,
    file_name: &str,
) -> (r: HttpRequest)
    requires
        has_text(templates@, ADD_JAR_TEMPLATE@),
    ensures
        r.url@ == service_url_spec(config.url@, last_char, SAVE_ENDPOINT@, token@),
        r.body@ == add_jar_body(templates@, module_id@, file_name@),
{
    let mut json = get_json(templates, ADD_JAR_TEMPLATE);
    json = replace_param(&json, "codModulo", String::from_str(module_id));
    json = replace_param(&json, "moduleId", String::from_str(MODULE_KIND));
    json = replace_param(&json, "fileName", String::from_str(file_name));
    HttpRequest { url: service_url(config.url.as_str(), last_char, SAVE_ENDPOINT, token), body: json }
}

/// The request that creates the module puts the configured description, in
/// full and unchanged, where the template's `${{resourceDesc}}` stands: for a
/// template `a ${{resourceDesc}} b` (no `$` in `a` or `b`), and a text that
/// then holds no `${{resourceId}}`, the body is `a`, the description, `b`.
pub proof fn lemma_create_module_body_keeps_description(
    files: Seq<(Seq<char>, Seq<u8>)>,
    a: Seq<char>,
    b: Seq<char>,
    desc: Seq<char>,
    id: Seq<char>,
)
    requires
        text_of(files, CREATE_MODULE_TEMPLATE@) == a + placeholder("resourceDesc"@) + b,
        no_dollar(a),
        no_dollar(b),
        !occurs_in(a + desc + b, placeholder("resourceId"@)),
    ensures
        create_module_body(files, desc, id) == a + desc + b,
{
    lemma_fill_single_placeholder(a, "resourceDesc"@, b, desc);
    lemma_fill_without_placeholder(a + desc + b, placeholder("resourceId"@), id);
}

} // verus!
