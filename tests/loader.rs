use pager::FetchURLType;

#[test]
fn asset_urls() {
    assert_eq!(
        FetchURLType::WASM.url(),
        "https://upload.wikimedia.org/wikipedia/commons/thumb/1/1f/WebAssembly_Logo.svg/180px-WebAssembly_Logo.svg.png"
    );
    assert_eq!(
        FetchURLType::JS.url(),
        "https://upload.wikimedia.org/wikipedia/commons/thumb/9/99/Unofficial_JavaScript_logo_2.svg/480px-Unofficial_JavaScript_logo_2.svg.png"
    );
}
