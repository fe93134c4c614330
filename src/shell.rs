use vstd::prelude::*;

verus! {

/// The greeting for `name`.
pub open spec fn greeting(name: Seq<char>) -> Seq<char> {
    "Hello, "@ + name + "! You've been greeted from Rust!"@
}

/// Greets `name`.
pub fn greet(name: &str) -> (r: String)
    ensures
        r@ == greeting(name@),
{
    let s = String::from_str("Hello, ");
    let s = s.concat(name);
    s.concat("! You've been greeted from Rust!")
}

/// The environment label of the build: "development" for a debug build;
/// for a release build the override, when one is set, else "production".
pub open spec fn environment_label(debug_build: bool, env_override: Option<Seq<char>>) -> Seq<char> {
    if debug_build {
        "development"@
    } else {
        match env_override {
            Some(v) => v,
            None => "production"@,
        }
    }
}

/// The environment label reported to the user interface. `env_override` is
/// the value of the override variable, when it is set.
pub fn app_environment(debug_build: bool, env_override: Option<String>) -> (r: String)
    ensures
        r@ == environment_label(
            debug_build,
            match env_override {
                Some(v) => Some(v@),
                None => None,
            },
        ),
{
    if debug_build {
        String::from_str("development")
    } else {
        match env_override {
            Some(v) => v,
            None => String::from_str("production"),
        }
    }
}

} // verus!
