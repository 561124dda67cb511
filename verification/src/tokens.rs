//! The fixed wire tokens of the protocol core: header names, route
//! prefixes, content types and literal bodies, as bytes, each with its
//! spec-level value.

use vstd::prelude::*;

verus! {

/// `Content-Type`
pub open spec fn spec_tok_content_type() -> Seq<u8> {
    seq![67u8, 111u8, 110u8, 116u8, 101u8, 110u8, 116u8, 45u8, 84u8, 121u8, 112u8, 101u8]
}

/// `Content-Type`
pub fn tok_content_type() -> (r: Vec<u8>)
    ensures
        r@ == spec_tok_content_type(),
{
    let r: Vec<u8> = vec![67u8, 111u8, 110u8, 116u8, 101u8, 110u8, 116u8, 45u8, 84u8, 121u8, 112u8, 101u8];
    r
}

/// `Content-Length`
pub open spec fn spec_tok_content_length() -> Seq<u8> {
    seq![67u8, 111u8, 110u8, 116u8, 101u8, 110u8, 116u8, 45u8, 76u8, 101u8, 110u8, 103u8, 116u8, 104u8]
}

/// `Content-Length`
pub fn tok_content_length() -> (r: Vec<u8>)
    ensures
        r@ == spec_tok_content_length(),
{
    let r: Vec<u8> = vec![67u8, 111u8, 110u8, 116u8, 101u8, 110u8, 116u8, 45u8, 76u8, 101u8, 110u8, 103u8, 116u8, 104u8];
    r
}

/// `User-Agent`
pub open spec fn spec_tok_user_agent() -> Seq<u8> {
    seq![85u8, 115u8, 101u8, 114u8, 45u8, 65u8, 103u8, 101u8, 110u8, 116u8]
}

/// `User-Agent`
pub fn tok_user_agent() -> (r: Vec<u8>)
    ensures
        r@ == spec_tok_user_agent(),
{
    let r: Vec<u8> = vec![85u8, 115u8, 101u8, 114u8, 45u8, 65u8, 103u8, 101u8, 110u8, 116u8];
    r
}

/// `Connection`
pub open spec fn spec_tok_connection() -> Seq<u8> {
    seq![67u8, 111u8, 110u8, 110u8, 101u8, 99u8, 116u8, 105u8, 111u8, 110u8]
}

/// `Connection`
pub fn tok_connection() -> (r: Vec<u8>)
    ensures
        r@ == spec_tok_connection(),
{
    let r: Vec<u8> = vec![67u8, 111u8, 110u8, 110u8, 101u8, 99u8, 116u8, 105u8, 111u8, 110u8];
    r
}

/// `close`
pub open spec fn spec_tok_close() -> Seq<u8> {
    seq![99u8, 108u8, 111u8, 115u8, 101u8]
}

/// `close`
pub fn tok_close() -> (r: Vec<u8>)
    ensures
        r@ == spec_tok_close(),
{
    let r: Vec<u8> = vec![99u8, 108u8, 111u8, 115u8, 101u8];
    r
}

/// `text/plain`
pub open spec fn spec_tok_text_plain() -> Seq<u8> {
    seq![116u8, 101u8, 120u8, 116u8, 47u8, 112u8, 108u8, 97u8, 105u8, 110u8]
}

/// `text/plain`
pub fn tok_text_plain() -> (r: Vec<u8>)
    ensures
        r@ == spec_tok_text_plain(),
{
    let r: Vec<u8> = vec![116u8, 101u8, 120u8, 116u8, 47u8, 112u8, 108u8, 97u8, 105u8, 110u8];
    r
}

/// `text/`
pub open spec fn spec_tok_text_slash() -> Seq<u8> {
    seq![116u8, 101u8, 120u8, 116u8, 47u8]
}

/// `text/`
pub fn tok_text_slash() -> (r: Vec<u8>)
    ensures
        r@ == spec_tok_text_slash(),
{
    let r: Vec<u8> = vec![116u8, 101u8, 120u8, 116u8, 47u8];
    r
}

/// `application/octet-stream`
pub open spec fn spec_tok_octet_stream() -> Seq<u8> {
    seq![97u8, 112u8, 112u8, 108u8, 105u8, 99u8, 97u8, 116u8, 105u8, 111u8, 110u8, 47u8, 111u8, 99u8, 116u8, 101u8, 116u8, 45u8, 115u8, 116u8, 114u8, 101u8, 97u8, 109u8]
}

/// `application/octet-stream`
pub fn tok_octet_stream() -> (r: Vec<u8>)
    ensures
        r@ == spec_tok_octet_stream(),
{
    let r: Vec<u8> = vec![97u8, 112u8, 112u8, 108u8, 105u8, 99u8, 97u8, 116u8, 105u8, 111u8, 110u8, 47u8, 111u8, 99u8, 116u8, 101u8, 116u8, 45u8, 115u8, 116u8, 114u8, 101u8, 97u8, 109u8];
    r
}

/// `/echo/`
pub open spec fn spec_tok_echo_prefix() -> Seq<u8> {
    seq![47u8, 101u8, 99u8, 104u8, 111u8, 47u8]
}

/// `/echo/`
pub fn tok_echo_prefix() -> (r: Vec<u8>)
    ensures
        r@ == spec_tok_echo_prefix(),
{
    let r: Vec<u8> = vec![47u8, 101u8, 99u8, 104u8, 111u8, 47u8];
    r
}

/// `/user-agent`
pub open spec fn spec_tok_user_agent_path() -> Seq<u8> {
    seq![47u8, 117u8, 115u8, 101u8, 114u8, 45u8, 97u8, 103u8, 101u8, 110u8, 116u8]
}

/// `/user-agent`
pub fn tok_user_agent_path() -> (r: Vec<u8>)
    ensures
        r@ == spec_tok_user_agent_path(),
{
    let r: Vec<u8> = vec![47u8, 117u8, 115u8, 101u8, 114u8, 45u8, 97u8, 103u8, 101u8, 110u8, 116u8];
    r
}

/// `/`
pub open spec fn spec_tok_root_path() -> Seq<u8> {
    seq![47u8]
}

/// `/`
pub fn tok_root_path() -> (r: Vec<u8>)
    ensures
        r@ == spec_tok_root_path(),
{
    let r: Vec<u8> = vec![47u8];
    r
}

/// `index.html`
pub open spec fn spec_tok_index_file() -> Seq<u8> {
    seq![105u8, 110u8, 100u8, 101u8, 120u8, 46u8, 104u8, 116u8, 109u8, 108u8]
}

/// `index.html`
pub fn tok_index_file() -> (r: Vec<u8>)
    ensures
        r@ == spec_tok_index_file(),
{
    let r: Vec<u8> = vec![105u8, 110u8, 100u8, 101u8, 120u8, 46u8, 104u8, 116u8, 109u8, 108u8];
    r
}

/// `Unable to determine User-Agent`
pub open spec fn spec_tok_ua_default() -> Seq<u8> {
    seq![85u8, 110u8, 97u8, 98u8, 108u8, 101u8, 32u8, 116u8, 111u8, 32u8, 100u8, 101u8, 116u8, 101u8, 114u8, 109u8, 105u8, 110u8, 101u8, 32u8, 85u8, 115u8, 101u8, 114u8, 45u8, 65u8, 103u8, 101u8, 110u8, 116u8]
}

/// `Unable to determine User-Agent`
pub fn tok_ua_default() -> (r: Vec<u8>)
    ensures
        r@ == spec_tok_ua_default(),
{
    let r: Vec<u8> = vec![85u8, 110u8, 97u8, 98u8, 108u8, 101u8, 32u8, 116u8, 111u8, 32u8, 100u8, 101u8, 116u8, 101u8, 114u8, 109u8, 105u8, 110u8, 101u8, 32u8, 85u8, 115u8, 101u8, 114u8, 45u8, 65u8, 103u8, 101u8, 110u8, 116u8];
    r
}

/// `Error: Cannot read file`
pub open spec fn spec_tok_placeholder() -> Seq<u8> {
    seq![69u8, 114u8, 114u8, 111u8, 114u8, 58u8, 32u8, 67u8, 97u8, 110u8, 110u8, 111u8, 116u8, 32u8, 114u8, 101u8, 97u8, 100u8, 32u8, 102u8, 105u8, 108u8, 101u8]
}

/// `Error: Cannot read file`
pub fn tok_placeholder() -> (r: Vec<u8>)
    ensures
        r@ == spec_tok_placeholder(),
{
    let r: Vec<u8> = vec![69u8, 114u8, 114u8, 111u8, 114u8, 58u8, 32u8, 67u8, 97u8, 110u8, 110u8, 111u8, 116u8, 32u8, 114u8, 101u8, 97u8, 100u8, 32u8, 102u8, 105u8, 108u8, 101u8];
    r
}

/// `html`
pub open spec fn spec_tok_ext_html() -> Seq<u8> {
    seq![104u8, 116u8, 109u8, 108u8]
}

/// `html`
pub fn tok_ext_html() -> (r: Vec<u8>)
    ensures
        r@ == spec_tok_ext_html(),
{
    let r: Vec<u8> = vec![104u8, 116u8, 109u8, 108u8];
    r
}

/// `css`
pub open spec fn spec_tok_ext_css() -> Seq<u8> {
    seq![99u8, 115u8, 115u8]
}

/// `css`
pub fn tok_ext_css() -> (r: Vec<u8>)
    ensures
        r@ == spec_tok_ext_css(),
{
    let r: Vec<u8> = vec![99u8, 115u8, 115u8];
    r
}

/// `js`
pub open spec fn spec_tok_ext_js() -> Seq<u8> {
    seq![106u8, 115u8]
}

/// `js`
pub fn tok_ext_js() -> (r: Vec<u8>)
    ensures
        r@ == spec_tok_ext_js(),
{
    let r: Vec<u8> = vec![106u8, 115u8];
    r
}

/// `png`
pub open spec fn spec_tok_ext_png() -> Seq<u8> {
    seq![112u8, 110u8, 103u8]
}

/// `png`
pub fn tok_ext_png() -> (r: Vec<u8>)
    ensures
        r@ == spec_tok_ext_png(),
{
    let r: Vec<u8> = vec![112u8, 110u8, 103u8];
    r
}

/// `jpg`
pub open spec fn spec_tok_ext_jpg() -> Seq<u8> {
    seq![106u8, 112u8, 103u8]
}

/// `jpg`
pub fn tok_ext_jpg() -> (r: Vec<u8>)
    ensures
        r@ == spec_tok_ext_jpg(),
{
    let r: Vec<u8> = vec![106u8, 112u8, 103u8];
    r
}

/// `jpeg`
pub open spec fn spec_tok_ext_jpeg() -> Seq<u8> {
    seq![106u8, 112u8, 101u8, 103u8]
}

/// `jpeg`
pub fn tok_ext_jpeg() -> (r: Vec<u8>)
    ensures
        r@ == spec_tok_ext_jpeg(),
{
    let r: Vec<u8> = vec![106u8, 112u8, 101u8, 103u8];
    r
}

/// `svg`
pub open spec fn spec_tok_ext_svg() -> Seq<u8> {
    seq![115u8, 118u8, 103u8]
}

/// `svg`
pub fn tok_ext_svg() -> (r: Vec<u8>)
    ensures
        r@ == spec_tok_ext_svg(),
{
    let r: Vec<u8> = vec![115u8, 118u8, 103u8];
    r
}

} // verus!