//! The calls into other crates that the engines make on an annotated request and whose results
//! they drop. Verus takes the contracts in this file on trust: each function only builds a value
//! in memory and returns for every text, and nothing is claimed of what it built.

use vstd::prelude::*;

verus! {

/// Calls `duct_sh::sh_dangerous`, which wraps `command` into the expression `/bin/sh -c
/// <command>` without running it. The expression is dropped.
#[verifier::external_body]
pub(crate) fn build_shell_expression(command: &str) {
    let _expression = duct_sh::sh_dangerous(command);
}

/// Calls `tower_http::services::ServeDir::new`, which stores `./<path>` as the directory to
/// serve and touches no file. The service is dropped.
#[verifier::external_body]
pub(crate) fn build_directory_service(path: &str) {
    let _service = tower_http::services::ServeDir::new(path);
}

/// Builds a `302 Found` response with `actix_web::HttpResponse::Found`, appends `location` as
/// its `Location` header and finishes it. A value that is no legal header ends in an error
/// response, not in a panic. The response is dropped.
#[verifier::external_body]
pub(crate) fn build_found_response(location: &str) {
    let _response = actix_web::HttpResponse::Found()
        .append_header(("Location", location.to_string()))
        .finish();
}

/// Builds a `308 Permanent Redirect` response with `actix_web::HttpResponse::PermanentRedirect`,
/// appends `location` as its `Location` header and finishes it. The response is dropped.
#[verifier::external_body]
pub(crate) fn build_permanent_redirect_response(location: &str) {
    let _response = actix_web::HttpResponse::PermanentRedirect()
        .append_header(("Location", location.to_string()))
        .finish();
}

/// Calls `rocket::response::Redirect::to`, which keeps `uri` if it parses as a URI reference
/// and nothing otherwise. The redirect is dropped.
#[verifier::external_body]
pub(crate) fn build_rocket_redirect(uri: &str) {
    let _redirect = rocket::response::Redirect::to(uri.to_string());
}

/// Calls `axum::response::Redirect::to`, which copies `url` into a `303 See Other` redirect.
/// The redirect is dropped.
#[verifier::external_body]
pub(crate) fn build_axum_redirect(url: &str) {
    let _redirect = axum::response::Redirect::to(url);
}

/// Calls `sxd_xpath::Factory::build` on a new factory, which tokenizes and parses `expression`
/// and returns the compiled XPath or a parse error. Either is dropped.
#[verifier::external_body]
pub(crate) fn compile_xpath(expression: &str) {
    let _compiled = sxd_xpath::Factory::new().build(expression);
}

/// Makes a cookie key of `key_material` with `actix_web::cookie::Key::from`, which panics on
/// fewer than 64 bytes, and with it a builder of `actix_session::SessionMiddleware` over a
/// `CookieSessionStore`, on which both cookie flags are switched off. The builder is dropped.
#[verifier::external_body]
pub(crate) fn build_cookie_session(key_material: &Vec<u8>)
    requires
        key_material.len() >= 64,
{
    let key = actix_web::cookie::Key::from(key_material.as_slice());
    let store = actix_session::storage::CookieSessionStore::default();
    let _builder = actix_session::SessionMiddleware::builder(store, key)
        .cookie_http_only(false)
        .cookie_secure(false);
}

/// Builds the default `axum_session::SessionConfig`, names its table `table_name` and switches
/// both cookie flags off. The configuration is dropped.
#[verifier::external_body]
pub(crate) fn build_session_config(table_name: String) {
    let _config = axum_session::SessionConfig::default()
        .with_table_name(table_name)
        .with_http_only(false)
        .with_secure(false);
}

} // verus!
