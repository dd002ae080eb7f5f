//! Deployment-environment selection: which named environment is active,
//! resolved once at startup from a process-environment value, with a safe
//! default and strict, case-insensitive validation.
use vstd::prelude::*;
use vstd::string::*;

use crate::errors::{ConfigErrorView, ConfigurationError};
use crate::text::{eq_ignore_ascii_case, lower_seq};

verus! {

/// The deployment environments the service knows.
#[derive(Clone, Copy, Debug, PartialEq, Eq, Structural)]
pub enum AppEnvironment {
    Local,
    Production,
}

/// The name under which each environment's configuration layer is filed.
pub open spec fn spec_environment_name(e: AppEnvironment) -> Seq<char> {
    match e {
        AppEnvironment::Local => "local"@,
        AppEnvironment::Production => "prod"@,
    }
}

/// Which environment a raw name denotes: `local` and `prod`, compared
/// up to ASCII case; anything else denotes none.
pub open spec fn spec_environment_of(s: Seq<char>) -> Option<AppEnvironment> {
    if lower_seq(s) == "local"@ {
        Some(AppEnvironment::Local)
    } else if lower_seq(s) == "prod"@ {
        Some(AppEnvironment::Production)
    } else {
        None
    }
}

impl AppEnvironment {
    /// The file-layer name of this environment.
    pub fn as_str(&self) -> (r: &'static str)
        ensures
            r@ == spec_environment_name(*self),
    {
        match self {
            AppEnvironment::Local => "local",
            AppEnvironment::Production => "prod",
        }
    }

    /// Parse an environment name, case-insensitively. A name that is
    /// neither `local` nor `prod` is rejected with an error carrying it.
    pub fn try_from(value: &str) -> (r: Result<AppEnvironment, ConfigurationError>)
        ensures
            match r {
                Ok(env) => spec_environment_of(value@) == Some(env),
                Err(e) => spec_environment_of(value@) is None && e@
                    == ConfigErrorView::InvalidEnvironment(value@),
            },
    {
        proof {
            reveal_strlit("local");
            reveal_strlit("prod");
            assert(lower_seq("local"@) =~= "local"@);
            assert(lower_seq("prod"@) =~= "prod"@);
        }
        if eq_ignore_ascii_case(value, "local") {
            Ok(AppEnvironment::Local)
        } else if eq_ignore_ascii_case(value, "prod") {
            Ok(AppEnvironment::Production)
        } else {
            Err(ConfigurationError::InvalidEnvironment(value.to_owned()))
        }
    }
}

/// Resolve the active environment from the governing process-environment
/// value: absent means `Local`; present means strict parsing, so that
/// startup never proceeds on an ambiguous environment.
pub fn resolve_environment(raw: &Option<String>) -> (r: Result<
    AppEnvironment,
    ConfigurationError,
>)
    ensures
        match raw {
            Option::None => r == Ok::<AppEnvironment, ConfigurationError>(AppEnvironment::Local),
            Option::Some(s) => match r {
                Ok(env) => spec_environment_of(s@) == Some(env),
                Err(e) => spec_environment_of(s@) is None && e@
                    == ConfigErrorView::InvalidEnvironment(s@),
            },
        },
{
    match raw {
        Option::None => Ok(AppEnvironment::Local),
        Option::Some(s) => AppEnvironment::try_from(s.as_str()),
    }
}

} // verus!
