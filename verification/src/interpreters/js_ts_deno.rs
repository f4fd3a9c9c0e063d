//! TypeScript and JavaScript, run by Deno.

use crate::context::DataHolder;
use crate::error::SniprunError;
use crate::interpreter::{fetch, Artifact, Instance, Interpreter, Profile};
use crate::level::SupportLevel;
use crate::process::{interpret, Invocation, ProcessReport};
use crate::workspace::{artifact_path, joined, workspace_of, workspace_path};
use vstd::prelude::*;

verus! {

/// One run of a TypeScript or JavaScript fragment through `deno run`.
///
/// The fragment is written as it is to `main.ts` in the backend's directory
/// and run with all permissions granted.
#[allow(non_camel_case_types)]
#[derive(Debug)]
pub struct JS_TS_deno {
    /// The level in force, `Bloc` at most.
    support_level: SupportLevel,
    /// The request.
    data: DataHolder,
    /// The code to run; empty until it is fetched.
    code: String,
    /// The backend's directory below the request's cache root.
    language_work_dir: String,
    /// The file in that directory that holds the code.
    main_file_path: String,
}

impl Clone for JS_TS_deno {
    fn clone(&self) -> (copy: JS_TS_deno)
        ensures
            copy == *self,
    {
        JS_TS_deno {
            support_level: self.support_level,
            data: self.data.clone(),
            code: self.code.clone(),
            language_work_dir: self.language_work_dir.clone(),
            main_file_path: self.main_file_path.clone(),
        }
    }
}

impl Interpreter for JS_TS_deno {
    open spec fn profile() -> Profile {
        Profile {
            name: "JS_TS_deno"@,
            languages: seq![
                "TS/JS via Deno"@,
                "typescript"@,
                "typescriptreact"@,
                "ts"@,
                "js"@,
                "javascript"@,
            ],
            max_support_level: SupportLevel::Bloc,
            default_for_filetype: false,
            artifact_name: "main.ts"@,
            program: "deno"@,
            args: seq!["run"@, "-A"@, "--unstable"@],
        }
    }

    /// Deno needs nothing around the code.
    open spec fn wrapped(code: Seq<char>) -> Seq<char> {
        code
    }

    proof fn wrapping_is_idempotent(code: Seq<char>) {
    }

    closed spec fn state(&self) -> Instance {
        Instance { level: self.support_level, data: self.data, code: self.code@ }
    }

    closed spec fn wf(&self) -> bool {
        &&& SupportLevel::Bloc.reaches(self.support_level)
        &&& self.language_work_dir@ == workspace_of(self.data.work_dir@, "JS_TS_deno"@)
        &&& self.main_file_path@ == joined(self.language_work_dir@, "main.ts"@)
    }

    proof fn level_is_capped(&self) {
    }

    fn new_with_level(data: DataHolder, level: SupportLevel) -> (instance: Box<JS_TS_deno>) {
        let lwd = workspace_path(data.work_dir.as_str(), "JS_TS_deno");
        let mfp = artifact_path(lwd.as_str(), "main.ts");
        Box::new(
            JS_TS_deno {
                data,
                support_level: level.capped_at(SupportLevel::Bloc),
                code: String::new(),
                language_work_dir: lwd,
                main_file_path: mfp,
            },
        )
    }

    fn get_supported_languages() -> (languages: Vec<String>) {
        let languages = vec![
            "TS/JS via Deno".to_owned(),
            "typescript".to_owned(),
            "typescriptreact".to_owned(),
            "ts".to_owned(),
            "js".to_owned(),
            "javascript".to_owned(),
        ];
        assert(crate::interpreter::texts(languages@) =~= Self::profile().languages);
        languages
    }

    fn get_name() -> (name: String) {
        "JS_TS_deno".to_owned()
    }

    fn get_current_level(&self) -> (level: SupportLevel) {
        self.support_level
    }

    fn set_current_level(&mut self, level: SupportLevel) {
        self.support_level = self.support_level.capped_at(level);
    }

    fn default_for_filetype() -> (hint: bool) {
        false
    }

    fn get_data(&self) -> (data: DataHolder) {
        self.data.clone()
    }

    fn get_max_support_level() -> (level: SupportLevel) {
        SupportLevel::Bloc
    }

    fn get_workspace(&self) -> (path: String) {
        self.language_work_dir.clone()
    }

    fn fetch_code(&mut self) -> (result: Result<(), SniprunError>) {
        self.code = fetch(&self.data, self.support_level);
        Ok(())
    }

    fn add_boilerplate(&mut self) -> (result: Result<(), SniprunError>) {
        Ok(())
    }

    fn build(&self) -> (artifact: Artifact) {
        Artifact { path: self.main_file_path.clone(), content: self.code.clone() }
    }

    fn command(&self) -> (invocation: Invocation) {
        let invocation = Invocation {
            program: "deno".to_owned(),
            args: vec!["run".to_owned(), "-A".to_owned(), "--unstable".to_owned()],
            artifact_path: self.main_file_path.clone(),
        };
        assert(invocation@.args =~= Self::profile().args);
        invocation
    }

    fn execute(&self, report: ProcessReport) -> (result: Result<String, SniprunError>) {
        interpret(report)
    }
}

} // verus!
