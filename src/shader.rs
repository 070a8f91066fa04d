use vstd::prelude::*;

verus! {

/// Why the shader program could not be built. Each carries the driver's
/// diagnostic text, or a fixed message where the driver gave none.
#[derive(Debug)]
pub enum ShaderError {
    Compile(String),
    Link(String),
}

/// The driver's log, or `fallback` where it gave none.
pub open spec fn log_or(log: Option<String>, fallback: Seq<char>) -> Seq<char> {
    match log {
        Some(l) => l@,
        None => fallback,
    }
}

fn log_text(log: Option<String>, fallback: &str) -> (r: String)
    ensures
        r@ == log_or(log, fallback@),
{
    match log {
        Some(l) => l,
        None => fallback.to_owned(),
    }
}

/// Decides the outcome of compiling a shader: `shader` is the object the
/// driver created, if any; `compiled` the compile status it reported, if it
/// reported one as a boolean; `log` its info log. Only a reported success
/// yields the shader.
pub fn compile_outcome<S>(shader: Option<S>, compiled: Option<bool>, log: Option<String>) -> (r:
    Result<S, ShaderError>)
    ensures
        match shader {
            None => r matches Err(ShaderError::Compile(m)) && m@ == "Unable to create shader object"@,
            Some(x) => if compiled == Some(true) {
                r == Ok::<S, ShaderError>(x)
            } else {
                r matches Err(ShaderError::Compile(m)) && m@ == log_or(
                    log,
                    "Unknown error creating shader"@,
                )
            },
        },
{
    match shader {
        None => Err(ShaderError::Compile("Unable to create shader object".to_owned())),
        Some(x) => match compiled {
            Some(true) => Ok(x),
            _ => Err(ShaderError::Compile(log_text(log, "Unknown error creating shader"))),
        },
    }
}

/// Decides the outcome of linking a program: `program` is the object the
/// driver created, if any; `linked` the link status it reported, if it
/// reported one as a boolean; `log` its info log. Only a reported success
/// yields the program.
pub fn link_outcome<P>(program: Option<P>, linked: Option<bool>, log: Option<String>) -> (r:
    Result<P, ShaderError>)
    ensures
        match program {
            None => r matches Err(ShaderError::Link(m)) && m@ == "Unable to create shader object"@,
            Some(x) => if linked == Some(true) {
                r == Ok::<P, ShaderError>(x)
            } else {
                r matches Err(ShaderError::Link(m)) && m@ == log_or(
                    log,
                    "Unknown error creating program object"@,
                )
            },
        },
{
    match program {
        None => Err(ShaderError::Link("Unable to create shader object".to_owned())),
        Some(x) => match linked {
            Some(true) => Ok(x),
            _ => Err(ShaderError::Link(log_text(log, "Unknown error creating program object"))),
        },
    }
}

} // verus!
