//! How an external program is to be started.

use vstd::prelude::*;
use vstd::string::StringExecFns;

use crate::platform::Platform;

verus! {

/// The process creation flag of Windows that keeps a console program from
/// opening a window.
pub const CREATE_NO_WINDOW: u32 = 0x0800_0000;

/// An external program with everything that starting it takes. Its
/// standard output and standard error are to be captured.
#[derive(Debug)]
pub struct Launch {
    pub program: String,
    pub args: Vec<String>,
    /// Environment variables to set, name and value.
    pub env: Vec<(String, String)>,
    /// Process creation flags; they count on Windows only.
    pub creation_flags: u32,
}

/// The locale in which the tools are run, so that what they print is
/// English text in UTF-8.
pub open spec fn locale() -> Seq<char> {
    "en_US.UTF-8"@
}

/// The environment variables that a platform's launches set.
pub open spec fn launch_env(platform: Platform) -> Seq<(Seq<char>, Seq<char>)> {
    match platform {
        Platform::Windows => Seq::empty(),
        Platform::Unix => seq![("LC_ALL"@, locale()), ("LANG"@, locale())],
    }
}

/// The process creation flags that a platform's launches carry.
pub open spec fn launch_flags(platform: Platform) -> u32 {
    match platform {
        Platform::Windows => CREATE_NO_WINDOW,
        Platform::Unix => 0,
    }
}

impl Launch {
    /// The launch of `program` with `args` on `platform`: without a
    /// console window on Windows, in the English UTF-8 locale elsewhere.
    pub fn new(program: String, args: Vec<String>, platform: Platform) -> (launch: Launch)
        ensures
            launch.program == program,
            launch.args == args,
            launch.env.deep_view() == launch_env(platform),
            launch.creation_flags == launch_flags(platform),
    {
        let mut env: Vec<(String, String)> = Vec::new();
        let mut creation_flags: u32 = 0;
        match platform {
            Platform::Windows => {
                creation_flags = CREATE_NO_WINDOW;
            },
            Platform::Unix => {
                env.push((String::from_str("LC_ALL"), String::from_str("en_US.UTF-8")));
                env.push((String::from_str("LANG"), String::from_str("en_US.UTF-8")));
            },
        }
        assert(env.deep_view() =~= launch_env(platform));
        Launch { program, args, env, creation_flags }
    }
}

} // verus!
