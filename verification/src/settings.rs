//! The settings of the program: where the problems come from and the two
//! commands that a solution is compiled and run with.

use crate::arguments::AppArgs;
use vstd::prelude::*;
use vstd::string::*;

verus! {

/// The settings of the program.
#[derive(Debug, PartialEq, Eq)]
pub struct Settings {
    pub db_path: String,
    pub compilation_step: String,
    pub run_step: String,
    pub pretty: bool,
}

/// What a `Settings` is.
pub ghost struct SettingsModel {
    pub db_path: Seq<char>,
    pub compilation_step: Seq<char>,
    pub run_step: Seq<char>,
    pub pretty: bool,
}

impl View for Settings {
    type V = SettingsModel;

    open spec fn view(&self) -> SettingsModel {
        SettingsModel {
            db_path: self.db_path@,
            compilation_step: self.compilation_step@,
            run_step: self.run_step@,
            pretty: self.pretty,
        }
    }
}

/// The settings of a program that was told nothing.
pub open spec fn default_settings() -> SettingsModel {
    SettingsModel {
        db_path: "https://raw.githubusercontent.com/MaciejWas/algonds/main/src/data/db.yaml"@,
        compilation_step: "echo hi there"@,
        run_step: "echo hi there"@,
        pretty: true,
    }
}

/// The text of an argument, or a default where the argument is missing.
pub open spec fn given_or(argument: Option<String>, default: Seq<char>) -> Seq<char> {
    match argument {
        Some(text) => text@,
        None => default,
    }
}

impl Clone for Settings {
    fn clone(&self) -> (copy: Self)
        ensures
            copy@ == self@,
    {
        Settings {
            db_path: self.db_path.clone(),
            compilation_step: self.compilation_step.clone(),
            run_step: self.run_step.clone(),
            pretty: self.pretty,
        }
    }
}

impl Default for Settings {
    fn default() -> (settings: Self)
        ensures
            settings@ == default_settings(),
    {
        Settings {
            db_path: "https://raw.githubusercontent.com/MaciejWas/algonds/main/src/data/db.yaml".to_string(),
            compilation_step: "echo hi there".to_string(),
            run_step: "echo hi there".to_string(),
            pretty: true,
        }
    }
}

impl Settings {
    /// The settings that the arguments ask for: each argument that is given
    /// replaces the default, and unicode is used unless it was disabled.
    pub fn from_args(args: &AppArgs) -> (settings: Self)
        ensures
            settings@ == (SettingsModel {
                db_path: given_or(args.db_path, default_settings().db_path),
                compilation_step: given_or(
                    args.compilation_step,
                    default_settings().compilation_step,
                ),
                run_step: given_or(args.run_step, default_settings().run_step),
                pretty: !args.disable_unicode,
            }),
    {
        let mut settings = Settings::default();
        if let Some(db_path) = &args.db_path {
            settings.db_path = db_path.clone();
        }
        if let Some(compilation_step) = &args.compilation_step {
            settings.compilation_step = compilation_step.clone();
        }
        if let Some(run_step) = &args.run_step {
            settings.run_step = run_step.clone();
        }
        settings.pretty = !args.disable_unicode;
        settings
    }
}

/// Whether a path is a web link: it begins with `http`.
pub fn is_web_link(text: &str) -> (web: bool)
    ensures
        web == "http"@.is_prefix_of(text@),
{
    proof {
        reveal_strlit("http");
    }
    if text.unicode_len() < 4 {
        return false;
    }
    let web = text.get_char(0) == 'h' && text.get_char(1) == 't' && text.get_char(2) == 't'
        && text.get_char(3) == 'p';
    proof {
        if web {
            assert(text@.subrange(0, 4) =~= "http"@);
        } else {
            assert("http"@[0] == 'h' && "http"@[1] == 't' && "http"@[2] == 't' && "http"@[3]
                == 'p');
            if "http"@.is_prefix_of(text@) {
                assert(text@.subrange(0, 4) == "http"@);
                assert(text@.subrange(0, 4)[0] == text@[0]);
                assert(text@.subrange(0, 4)[1] == text@[1]);
                assert(text@.subrange(0, 4)[2] == text@[2]);
                assert(text@.subrange(0, 4)[3] == text@[3]);
            }
        }
    }
    web
}

} // verus!
