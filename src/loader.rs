use vstd::prelude::*;

verus! {

/// The default images that can be fetched.
#[derive(Clone, Copy, Debug, PartialEq, Eq, Structural)]
pub enum FetchURLType {
    WASM,
    JS,
}

pub open spec fn url_of(t: FetchURLType) -> Seq<char> {
    match t {
        FetchURLType::WASM => "https://upload.wikimedia.org/wikipedia/commons/thumb/1/1f/WebAssembly_Logo.svg/180px-WebAssembly_Logo.svg.png"@,
        FetchURLType::JS => "https://upload.wikimedia.org/wikipedia/commons/thumb/9/99/Unofficial_JavaScript_logo_2.svg/480px-Unofficial_JavaScript_logo_2.svg.png"@,
    }
}

impl FetchURLType {
    /// Where the image is fetched from.
    pub fn url(&self) -> (r: &'static str)
        ensures
            r@ == url_of(*self),
    {
        match self {
            FetchURLType::WASM => "https://upload.wikimedia.org/wikipedia/commons/thumb/1/1f/WebAssembly_Logo.svg/180px-WebAssembly_Logo.svg.png",
            FetchURLType::JS => "https://upload.wikimedia.org/wikipedia/commons/thumb/9/99/Unofficial_JavaScript_logo_2.svg/480px-Unofficial_JavaScript_logo_2.svg.png",
        }
    }
}

} // verus!
