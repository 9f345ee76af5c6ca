//! The environment that the program runs in.

use vstd::prelude::*;

verus! {

/// Where the program runs.
#[derive(Debug, Clone, Copy, PartialEq, Eq, Structural)]
pub enum Environment {
    Development,
    Production,
}

impl Default for Environment {
    fn default() -> (environment: Self)
        ensures
            environment == Environment::Development,
    {
        Environment::Development
    }
}

/// The environment that a name stands for: `development` or `production`,
/// in lower case.
pub open spec fn environment_named(name: Seq<char>) -> Option<Environment> {
    if name == "development"@ {
        Some(Environment::Development)
    } else if name == "production"@ {
        Some(Environment::Production)
    } else {
        None
    }
}

/// The environment of a build that was not told: development for a debug
/// build, production for a release build.
pub open spec fn environment_of_build(debug_build: bool) -> Environment {
    if debug_build {
        Environment::Development
    } else {
        Environment::Production
    }
}

/// The environment to run in: the one that `setting` names, if it names
/// one, else that of the build.
pub open spec fn environment_for(setting: Option<Seq<char>>, debug_build: bool) -> Environment {
    match setting {
        Some(name) => match environment_named(name) {
            Some(environment) => environment,
            None => environment_of_build(debug_build),
        },
        None => environment_of_build(debug_build),
    }
}

impl Environment {
    /// Reads an environment from its name.
    pub fn from_str(name: &str) -> (parsed: Option<Self>)
        ensures
            parsed == environment_named(name@),
    {
        let text = name.to_owned();
        if text == "development".to_owned() {
            Some(Environment::Development)
        } else if text == "production".to_owned() {
            Some(Environment::Production)
        } else {
            None
        }
    }
}

/// Decides the environment from the setting `ENV`, if it is set, and from
/// the kind of build.
pub fn which(setting: Option<&str>, debug_build: bool) -> (environment: Environment)
    ensures
        environment == environment_for(
            match setting {
                Some(name) => Some(name@),
                None => None,
            },
            debug_build,
        ),
{
    let default_env = if debug_build {
        Environment::Development
    } else {
        Environment::Production
    };
    match setting {
        None => default_env,
        Some(name) => match Environment::from_str(name) {
            Some(environment) => environment,
            None => default_env,
        },
    }
}

} // verus!
