//! The data the tool reads: its configuration file and the server replies,
//! as far as the logic looks into them.
use vstd::prelude::*;

verus! {

/// The build configuration file (`build.json`).
#[derive(Clone, Debug, Default)]
pub struct BuilderConfig {
    /// Base URL of the server.
    pub url: String,
    /// Login user.
    pub user: String,
    /// Login password.
    pub password: String,
    /// Path of the jar to send.
    pub jar_file_path: String,
    /// Identifier of the module to create or update.
    pub resource_id: String,
    /// Description of the module; used only when the module is created.
    pub resource_desc: String,
}

/// The credentials sent at login.
#[derive(Clone, Debug, Default)]
pub struct AccessData {
    pub username: String,
    pub password: String,
}

/// The session identifier in a login reply.
#[derive(Clone, Debug, Default)]
pub struct JSessionId {
    pub field: String,
}

/// The body of a login reply.
#[derive(Clone, Debug, Default)]
pub struct LoginResponseBody {
    pub jsessionid: JSessionId,
}

/// A login reply.
#[derive(Clone, Debug, Default)]
pub struct Root {
    pub response_body: LoginResponseBody,
}

/// The body of a dataset reply: its rows of cells.
#[derive(Clone, Debug, Default)]
pub struct ModuloResponseBody {
    pub result: Vec<Vec<String>>,
}

/// A reply of the dataset services (save, load records).
#[derive(Clone, Debug, Default)]
pub struct PostCriaModuloSchema {
    pub status_message: Option<String>,
    pub response_body: Option<ModuloResponseBody>,
}

/// The cell `col` of the row `row` of a reply, if the reply has a body and
/// the cell exists.
pub open spec fn reply_cell(reply: PostCriaModuloSchema, row: int, col: int) -> Option<Seq<char>> {
    match reply.response_body {
        Some(body) => if 0 <= row < body.result@.len() && 0 <= col < body.result@[row]@.len() {
            Some(body.result@[row]@[col]@)
        } else {
            None
        },
        None => None,
    }
}

/// The number of rows of a reply that has a body.
pub open spec fn reply_rows(reply: PostCriaModuloSchema) -> int {
    match reply.response_body {
        Some(body) => body.result@.len() as int,
        None => 0,
    }
}

/// The credentials that a configuration logs in with.
pub fn access_data(config: &BuilderConfig) -> (r: AccessData)
    ensures
        r.username@ == config.user@,
        r.password@ == config.password@,
{
    AccessData { password: config.password.clone(), username: config.user.clone() }
}

/// The session token of a login reply.
pub fn session_token(root: &Root) -> (r: String)
    ensures
        r@ == root.response_body.jsessionid.field@,
{
    root.response_body.jsessionid.field.clone()
}

} // verus!
