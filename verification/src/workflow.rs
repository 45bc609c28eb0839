//! The upload, as a sequence of decisions: each server reply moves it to its
//! next stage and says what to send next. The caller performs the I/O.
use vstd::prelude::*;
use crate::endpoint::{
    LOAD_ENDPOINT, REMOVE_ENDPOINT, SAVE_ENDPOINT, UPLOAD_ENDPOINT, last_char, login_url_spec,
    parse_url, service_url_spec, url_parse,
};
use crate::login::{
    LoginError, LoginReply, json_string, login_error_json, login_error_json_spec, login_outcome,
    to_json_string,
};
use crate::replies::{created_module_id, existing_jar, reports_status};
use crate::requests::{
    ADD_JAR_TEMPLATE, HttpRequest, MODULE_KIND, add_jar_body, create_module_body, delete_jar_body, file_name_of, find_jar_body,
    get_existing_jar_request, login_body, path_file_name, post_add_jar_request,
    post_delete_jar_request, post_file_url, post_login_request, post_modulo_request,
    templates_ready,
};
use crate::resources::{Templates, text_of};
use crate::template::replace_all;
use crate::schemas::{BuilderConfig, PostCriaModuloSchema, access_data, reply_cell, reply_rows};

verus! {

/// Where an upload stands.
#[derive(Clone, Copy, Debug, PartialEq, Eq, Structural)]
pub enum Stage {
    /// Nothing sent yet.
    Start,
    /// The login request is out.
    LoggingIn,
    /// The request that creates the module is out.
    CreatingModule,
    /// The module is being looked up among the existing ones.
    LookingUpModule,
    /// The jar file is being sent.
    Uploading,
    /// The module is being searched for a jar of the same name.
    CheckingJar,
    /// The jar of the same name is being deleted.
    DeletingJar,
    /// The jar is being added to the module.
    AddingJar,
    /// The session is being closed.
    LoggingOut,
    /// The module was created or updated.
    Done,
    /// The upload stopped.
    Failed,
}

/// The order of the stages; every step moves to a later one.
pub open spec fn rank(s: Stage) -> int {
    match s {
        Stage::Start => 0,
        Stage::LoggingIn => 1,
        Stage::CreatingModule => 2,
        Stage::LookingUpModule => 3,
        Stage::Uploading => 4,
        Stage::CheckingJar => 5,
        Stage::DeletingJar => 6,
        Stage::AddingJar => 7,
        Stage::LoggingOut => 8,
        Stage::Done => 9,
        Stage::Failed => 9,
    }
}

/// Whether a stage ends the upload.
pub open spec fn is_final(s: Stage) -> bool {
    s is Done || s is Failed
}

/// What the caller reports back after performing the last action.
pub enum Event {
    /// Starts the upload.
    Begin,
    /// The login request came back (or did not).
    LoginDone(LoginReply),
    /// The reply to the request that creates the module.
    ModuleSaved(PostCriaModuloSchema),
    /// The existing module found by the lookup, if any: its identifier, or
    /// the error that the lookup reported.
    ModuleFound(Option<Result<String, String>>),
    /// The jar file was sent.
    JarUploaded,
    /// The reply to the jar search.
    JarSearched(PostCriaModuloSchema),
    /// The jar of the same name was deleted.
    JarDeleted,
    /// The jar was added to the module.
    JarAdded,
    /// The session was closed.
    LoggedOut,
}

/// What the caller must do next.
pub enum Action {
    /// Send the login request (with a client that keeps cookies).
    Login(HttpRequest),
    /// Send the request that creates the module.
    CreateModule(HttpRequest),
    /// Look the module up among the existing ones.
    FindModule,
    /// Send the jar file at `path`, called `file_name`, as a multipart form to `url`.
    UploadJar { url: String, path: String, file_name: String },
    /// Send the jar search.
    FindJar(HttpRequest),
    /// Send the request that deletes the jar `cod_jar`.
    DeleteJar { request: HttpRequest, cod_jar: String },
    /// Send the request that adds the jar.
    AddJar(HttpRequest),
    /// Close the session.
    Logout,
    /// The upload is over, with the module's identifier or the error text.
    Finish(Result<String, String>),
    /// The upload cannot go on: a reply or the configuration lacks what it
    /// needs. The text says what.
    Abort(String),
}

/// The text given when a reply lacks a value that the upload needs.
pub const MISSING_VALUE: &'static str = "called `Option::unwrap()` on a `None` value";

/// The text given when the jar path names no file.
pub const NO_FILE_NAME: &'static str = "Error getting file_name";

/// An upload in progress.
pub struct Upload {
    pub stage: Stage,
    pub config: BuilderConfig,
    /// The session token, once logged in.
    pub token: String,
    /// The last character of the configured URL, once logged in.
    pub last_char: char,
    /// The module's identifier, once known.
    pub module_id: String,
    /// The jar's file name, once known.
    pub file_name: String,
    /// The save reply, kept while the module is looked up.
    pub save_reply: Option<PostCriaModuloSchema>,
}

/// Whether an event is the one that a stage waits for.
pub open spec fn awaits(s: Stage, e: Event) -> bool {
    match s {
        Stage::Start => e is Begin,
        Stage::LoggingIn => e is LoginDone,
        Stage::CreatingModule => e is ModuleSaved,
        Stage::LookingUpModule => e is ModuleFound,
        Stage::Uploading => e is JarUploaded,
        Stage::CheckingJar => e is JarSearched,
        Stage::DeletingJar => e is JarDeleted,
        Stage::AddingJar => e is JarAdded,
        Stage::LoggingOut => e is LoggedOut,
        Stage::Done => false,
        Stage::Failed => false,
    }
}


/// What a login reply amounts to: the session token, or the message and the
/// reply of the login error.
pub open spec fn login_result(reply: LoginReply) -> Result<Seq<char>, (Seq<char>, Seq<char>)> {
    match reply {
        LoginReply::Unreachable(e) => Err((e@, e@)),
        LoginReply::Answered { body, root } => match root {
            Ok(root) => Ok(root.response_body.jsessionid.field@),
            Err(e) => Err((e@, body@)),
        },
    }
}

/// The view of an optional string.
pub open spec fn opt_view(o: Option<String>) -> Option<Seq<char>> {
    match o {
        Some(s) => Some(s@),
        None => None,
    }
}

/// The two uploads are one session: same configuration, token, URL ending,
/// module and file name.
pub open spec fn same_session(a: Upload, b: Upload) -> bool {
    &&& a.config == b.config
    &&& a.token == b.token
    &&& a.last_char == b.last_char
    &&& a.module_id == b.module_id
    &&& a.file_name == b.file_name
}

/// The upload stops with an abort that gives the text `msg`.
pub open spec fn aborts(new: Upload, action: Action, msg: Seq<char>) -> bool {
    &&& new.stage is Failed
    &&& action matches Action::Abort(m) && m@ == msg
}

/// The upload ends with the error text `text`.
pub open spec fn fails_with(new: Upload, action: Action, text: Seq<char>) -> bool {
    &&& new.stage is Failed
    &&& action matches Action::Finish(Err(t)) && t@ == text
}

/// The step taken once the module's identifier is known (`None`: the reply
/// that should give it lacks it): the jar file is sent, under its file name.
pub open spec fn module_known(old: Upload, id: Option<Seq<char>>, new: Upload, action: Action) -> bool {
    match id {
        None => aborts(new, action, MISSING_VALUE@),
        Some(id) => match path_file_name(old.config.jar_file_path@) {
            None => aborts(new, action, NO_FILE_NAME@),
            Some(n) => {
                &&& new.stage is Uploading
                &&& new.config == old.config
                &&& new.token == old.token
                &&& new.last_char == old.last_char
                &&& new.module_id@ == id
                &&& new.file_name@ == n
                &&& action matches Action::UploadJar { url, path, file_name }
                &&& url@ == service_url_spec(old.config.url@, old.last_char, UPLOAD_ENDPOINT@, old.token@)
                &&& path@ == old.config.jar_file_path@
                &&& file_name@ == n
            },
        },
    }
}

/// The jar is added to the module.
pub open spec fn adds_jar(files: Seq<(Seq<char>, Seq<u8>)>, old: Upload, new: Upload, action: Action) -> bool {
    &&& new.stage is AddingJar
    &&& same_session(old, new)
    &&& action matches Action::AddJar(req)
    &&& req.url@ == service_url_spec(old.config.url@, old.last_char, SAVE_ENDPOINT@, old.token@)
    &&& req.body@ == add_jar_body(files, old.module_id@, old.file_name@)
}

/// One step of the upload: from `old`, on `event`, to `new`, doing `action`.
pub open spec fn step_spec(files: Seq<(Seq<char>, Seq<u8>)>, old: Upload, event: Event, new: Upload, action: Action) -> bool {
    match event {
        Event::Begin => match url_parse(old.config.url@) {
            Err(e) => fails_with(new, action, login_error_json_spec(e, e)),
            Ok(u) => {
                &&& new.stage is LoggingIn
                &&& new.config == old.config
                &&& new.last_char == old.config.url@.last()
                &&& action matches Action::Login(req)
                &&& req.url@ == login_url_spec(u)
                &&& req.body@ == login_body(files, old.config.user@, old.config.password@)
            },
        },
        Event::LoginDone(reply) => match login_result(reply) {
            Err((m, b)) => fails_with(new, action, login_error_json_spec(m, b)),
            Ok(token) => {
                &&& new.stage is CreatingModule
                &&& new.config == old.config
                &&& new.last_char == old.last_char
                &&& new.token@ == token
                &&& action matches Action::CreateModule(req)
                &&& req.url@ == service_url_spec(old.config.url@, old.last_char, SAVE_ENDPOINT@, token)
                &&& req.body@ == create_module_body(files, old.config.resource_desc@, old.config.resource_id@)
            },
        },
        Event::ModuleSaved(reply) => if reply.status_message is Some {
            &&& new.stage is LookingUpModule
            &&& same_session(old, new)
            &&& new.save_reply == Some(reply)
            &&& action is FindModule
        } else {
            module_known(old, reply_cell(reply, 0, 0), new, action)
        },
        Event::ModuleFound(found) => match found {
            Some(Ok(id)) => module_known(old, Some(id@), new, action),
            Some(Err(e)) => fails_with(new, action, json_string(e@)),
            None => module_known(old, reply_cell(old.save_reply.unwrap(), 0, 0), new, action),
        },
        Event::JarUploaded => {
            &&& new.stage is CheckingJar
            &&& same_session(old, new)
            &&& action matches Action::FindJar(req)
            &&& req.url@ == service_url_spec(old.config.url@, old.last_char, LOAD_ENDPOINT@, old.token@)
            &&& req.body@ == find_jar_body(files, old.file_name@, old.module_id@)
        },
        Event::JarSearched(reply) => if reply.response_body is None {
            aborts(new, action, MISSING_VALUE@)
        } else if reply_rows(reply) == 0 {
            adds_jar(files, old, new, action)
        } else {
            match reply_cell(reply, 0, 1) {
                None => aborts(new, action, MISSING_VALUE@),
                Some(code) => {
                    &&& new.stage is DeletingJar
                    &&& same_session(old, new)
                    &&& action matches Action::DeleteJar { request, cod_jar }
                    &&& cod_jar@ == code
                    &&& request.url@ == service_url_spec(old.config.url@, old.last_char, REMOVE_ENDPOINT@, old.token@)
                    &&& request.body@ == delete_jar_body(files, old.module_id@, code)
                },
            }
        },
        Event::JarDeleted => adds_jar(files, old, new, action),
        Event::JarAdded => {
            &&& new.stage is LoggingOut
            &&& same_session(old, new)
            &&& action is Logout
        },
        Event::LoggedOut => {
            &&& new.stage is Done
            &&& same_session(old, new)
            &&& action matches Action::Finish(Ok(id)) && id@ == old.module_id@
        },
    }
}

impl Upload {
    /// What holds of an upload at each stage.
    pub open spec fn wf(&self) -> bool {
        &&& rank(self.stage) >= 1 && !(self.stage is Failed) ==> {
            &&& self.config.url@.len() > 0
            &&& self.last_char == self.config.url@.last()
        }
        &&& self.stage is LookingUpModule ==> self.save_reply is Some
        &&& rank(self.stage) >= 4 && !is_final(self.stage) ==> path_file_name(self.config.jar_file_path@)
            == Some(self.file_name@)
    }

    /// A new upload for a configuration.
    pub fn new(config: BuilderConfig) -> (r: Upload)
        ensures
            r.wf(),
            r.stage is Start,
            r.config == config,
    {
        Upload {
            stage: Stage::Start,
            config,
            token: String::new(),
            last_char: '/',
            module_id: String::new(),
            file_name: String::new(),
            save_reply: None,
        }
    }
}


impl Upload {
    /// Moves on once the module's identifier is known (or found missing).
    fn module_is_known(&mut self, id: Option<String>) -> (a: Action)
        requires
            old(self).config.url@.len() > 0,
            old(self).last_char == old(self).config.url@.last(),
        ensures
            module_known(*old(self), opt_view(id), *final(self), a),
            final(self).wf(),
    {
        match id {
            None => {
                self.stage = Stage::Failed;
                Action::Abort(String::from_str(MISSING_VALUE))
            },
            Some(id) => match file_name_of(self.config.jar_file_path.as_str()) {
                None => {
                    self.stage = Stage::Failed;
                    Action::Abort(String::from_str(NO_FILE_NAME))
                },
                Some(n) => {
                    let url = post_file_url(&self.config, self.token.as_str(), self.last_char);
                    self.module_id = id;
                    self.file_name = n.clone();
                    self.stage = Stage::Uploading;
                    Action::UploadJar { url, path: self.config.jar_file_path.clone(), file_name: n }
                },
            },
        }
    }

    /// Moves on to adding the jar to the module.
    fn add_jar(&mut self, templates: &Templates) -> (a: Action)
        requires
            templates_ready(templates@),
            old(self).wf(),
            rank(old(self).stage) >= 4,
            !is_final(old(self).stage),
        ensures
            adds_jar(templates@, *old(self), *final(self), a),
            final(self).wf(),
    {
        let req = post_add_jar_request(
            templates,
            &self.config,
            self.token.as_str(),
            self.last_char,
            self.module_id.as_str(),
            self.file_name.as_str(),
        );
        self.stage = Stage::AddingJar;
        Action::AddJar(req)
    }

    /// Takes the reply to the last action and says what to do next.
    pub fn step(&mut self, templates: &Templates, event: Event) -> (a: Action)
        requires
            old(self).wf(),
            awaits(old(self).stage, event),
            templates_ready(templates@),
        ensures
            step_spec(templates@, *old(self), event, *final(self), a),
            final(self).wf(),
            rank(final(self).stage) > rank(old(self).stage),
            is_final(final(self).stage) <==> (a is Finish || a is Abort),
            a matches Action::Finish(Ok(id)) ==> old(self).stage is LoggingOut && id@ == old(self).module_id@,
            a is DeleteJar ==> old(self).stage is CheckingJar,
            a is AddJar ==> old(self).stage is CheckingJar || old(self).stage is DeletingJar,
            a is Logout ==> old(self).stage is AddingJar,
    {
        match event {
            Event::Begin => match parse_url(self.config.url.as_str()) {
                Err(e) => {
                    let le = LoginError { message: e.clone(), ret_body: e };
                    self.stage = Stage::Failed;
                    Action::Finish(Err(login_error_json(&le)))
                },
                Ok(u) => {
                    self.last_char = last_char(self.config.url.as_str());
                    let access = access_data(&self.config);
                    let req = post_login_request(templates, u.as_str(), &access);
                    self.stage = Stage::LoggingIn;
                    Action::Login(req)
                },
            },
            Event::LoginDone(reply) => match login_outcome(&reply) {
                Err(le) => {
                    self.stage = Stage::Failed;
                    Action::Finish(Err(login_error_json(&le)))
                },
                Ok(token) => {
                    let req = post_modulo_request(templates, &self.config, token.as_str(), self.last_char);
                    self.token = token;
                    self.stage = Stage::CreatingModule;
                    Action::CreateModule(req)
                },
            },
            Event::ModuleSaved(reply) => {
                if reports_status(&reply) {
                    self.save_reply = Some(reply);
                    self.stage = Stage::LookingUpModule;
                    Action::FindModule
                } else {
                    let id = created_module_id(&reply);
                    self.module_is_known(id)
                }
            },
            Event::ModuleFound(found) => match found {
                Some(Ok(id)) => self.module_is_known(Some(id)),
                Some(Err(e)) => {
                    self.stage = Stage::Failed;
                    Action::Finish(Err(to_json_string(e.as_str())))
                },
                None => {
                    let id = match &self.save_reply {
                        Some(r) => created_module_id(r),
                        None => None,
                    };
                    self.module_is_known(id)
                },
            },
            Event::JarUploaded => {
                let req = get_existing_jar_request(
                    templates,
                    &self.config,
                    self.token.as_str(),
                    self.last_char,
                    self.module_id.as_str(),
                    self.file_name.as_str(),
                );
                self.stage = Stage::CheckingJar;
                Action::FindJar(req)
            },
            Event::JarSearched(reply) => match existing_jar(&reply) {
                None => {
                    self.stage = Stage::Failed;
                    Action::Abort(String::from_str(MISSING_VALUE))
                },
                Some(Ok(cod)) => {
                    let request = post_delete_jar_request(
                        templates,
                        &self.config,
                        self.token.as_str(),
                        self.last_char,
                        self.module_id.as_str(),
                        cod.as_str(),
                    );
                    self.stage = Stage::DeletingJar;
                    Action::DeleteJar { request, cod_jar: cod }
                },
                Some(Err(_)) => self.add_jar(templates),
            },
            Event::JarDeleted => self.add_jar(templates),
            Event::JarAdded => {
                self.stage = Stage::LoggingOut;
                Action::Logout
            },
            Event::LoggedOut => {
                self.stage = Stage::Done;
                Action::Finish(Ok(self.module_id.clone()))
            },
        }
    }
}

/// Every stage lies between the first and the last rank, and only the final
/// stages have the last one: since each step raises the rank, an upload ends
/// after at most nine steps.
pub proof fn lemma_upload_ends(s: Stage)
    ensures
        0 <= rank(s) <= 9,
        rank(s) == 9 <==> is_final(s),
{
}

/// Whenever the upload adds the jar, after a search that found none as well as
/// after deleting one, the request fills the add template with the module's
/// identifier, `ModuloJava` and the file name of the configured jar path, and
/// goes to the save service of the session.
pub proof fn lemma_add_jar_uses_file_name(
    files: Seq<(Seq<char>, Seq<u8>)>,
    old: Upload,
    event: Event,
    new: Upload,
    action: Action,
)
    requires
        old.wf(),
        awaits(old.stage, event),
        step_spec(files, old, event, new, action),
        action is AddJar,
    ensures
        (old.stage is CheckingJar || old.stage is DeletingJar),
        match path_file_name(old.config.jar_file_path@) {
            Some(n) => action matches Action::AddJar(req) && req.body@ == replace_all(
                replace_all(
                    replace_all(text_of(files, "postModulo.json"@), "${{codModulo}}"@, old.module_id@),
                    "${{moduleId}}"@,
                    "ModuloJava"@,
                ),
                "${{fileName}}"@,
                n,
            ) && req.url@ == service_url_spec(old.config.url@, old.last_char, SAVE_ENDPOINT@, old.token@),
            None => false,
        },
{
    reveal_strlit("${{");
    reveal_strlit("}}");
    assert("${{"@ + "codModulo"@ + "}}"@ =~= "${{codModulo}}"@) by {
        reveal_strlit("codModulo");
        reveal_strlit("${{codModulo}}");
    }
    assert("${{"@ + "moduleId"@ + "}}"@ =~= "${{moduleId}}"@) by {
        reveal_strlit("moduleId");
        reveal_strlit("${{moduleId}}");
    }
    assert("${{"@ + "fileName"@ + "}}"@ =~= "${{fileName}}"@) by {
        reveal_strlit("fileName");
        reveal_strlit("${{fileName}}");
    }
    assert(MODULE_KIND@ =~= "ModuloJava"@) by {
        reveal_strlit("ModuloJava");
    }
    assert(ADD_JAR_TEMPLATE@ =~= "postModulo.json"@) by {
        reveal_strlit("postModulo.json");
    }
}

/// Adding the jar does not depend on whether the search found one: after a
/// search with no result and after deleting the jar found, the same session
/// sends the same request.
pub proof fn lemma_add_jar_same_either_way(
    files: Seq<(Seq<char>, Seq<u8>)>,
    searched: Upload,
    reply: PostCriaModuloSchema,
    new1: Upload,
    action1: Action,
    deleted: Upload,
    new2: Upload,
    action2: Action,
)
    requires
        searched.stage is CheckingJar,
        reply.response_body is Some,
        reply_rows(reply) == 0,
        step_spec(files, searched, Event::JarSearched(reply), new1, action1),
        deleted.stage is DeletingJar,
        same_session(searched, deleted),
        step_spec(files, deleted, Event::JarDeleted, new2, action2),
    ensures
        action1 matches Action::AddJar(r1) && action2 matches Action::AddJar(r2) && r1.url@ == r2.url@
            && r1.body@ == r2.body@,
{
}

} // verus!
