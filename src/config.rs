use vstd::prelude::*;

verus! {

/// The configured value when one is given, else the default.
pub open spec fn setting(value: Option<String>, default: Seq<char>) -> Seq<char> {
    match value {
        Some(v) => v@,
        None => default,
    }
}

fn setting_or(value: Option<String>, default: &str) -> (r: String)
    ensures
        r@ == setting(value, default@),
{
    match value {
        Some(v) => v,
        None => String::from_str(default),
    }
}

/// The mail-submission listener's TCP port; 1025 unless configured.
pub fn listener_port(value: Option<String>) -> (r: String)
    ensures
        r@ == setting(value, "1025"@),
{
    setting_or(value, "1025")
}

/// The query API's TCP port; 1080 unless configured.
pub fn api_port(value: Option<String>) -> (r: String)
    ensures
        r@ == setting(value, "1080"@),
{
    setting_or(value, "1080")
}

/// Directory of the static web assets; `/app/public` unless configured.
pub fn static_dir(value: Option<String>) -> (r: String)
    ensures
        r@ == setting(value, "/app/public"@),
{
    setting_or(value, "/app/public")
}

/// The address to bind a listener on `port`, on every interface.
pub fn bind_address(port: &str) -> (r: String)
    ensures
        r@ == "0.0.0.0:"@ + port@,
{
    String::from_str("0.0.0.0:").concat(port)
}

/// The page served for any path that names no static file.
pub fn index_page_path(static_dir: &str) -> (r: String)
    ensures
        r@ == static_dir@ + "/index.html"@,
{
    String::from_str(static_dir).concat("/index.html")
}

} // verus!
