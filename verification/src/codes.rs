//! The OpenGL enumerants that this crate hands to the driver.
//!
//! Contracts speak of the spec functions below, which give each enumerant the
//! value that the Khronos registry assigns to it. Executable code takes the
//! same enumerants from the `gl` bindings, so that the numbers which reach the
//! driver are the ones the bindings were generated with; the functions that
//! read them are believed, not proved, to agree with the registry.
use vstd::prelude::*;

verus! {

/// `GL_ARRAY_BUFFER`: the binding point of vertex attribute data.
pub open spec fn array_buffer() -> u32 {
    0x8892
}

/// `GL_ELEMENT_ARRAY_BUFFER`: the binding point of vertex indices.
pub open spec fn element_array_buffer() -> u32 {
    0x8893
}

/// `GL_SHADER_STORAGE_BUFFER`: the binding point of shader storage blocks.
pub open spec fn shader_storage_buffer() -> u32 {
    0x90D2
}

/// `GL_VERTEX_SHADER`.
pub open spec fn vertex_shader() -> u32 {
    0x8B31
}

/// `GL_FRAGMENT_SHADER`.
pub open spec fn fragment_shader() -> u32 {
    0x8B30
}

/// `GL_COMPUTE_SHADER`.
pub open spec fn compute_shader() -> u32 {
    0x91B9
}

/// `GL_GEOMETRY_SHADER`.
pub open spec fn geometry_shader() -> u32 {
    0x8DD9
}

/// `GL_POINTS`.
pub open spec fn points() -> u32 {
    0x0000
}

/// `GL_LINES`.
pub open spec fn lines() -> u32 {
    0x0001
}

/// `GL_TRIANGLES`.
pub open spec fn triangles() -> u32 {
    0x0004
}

/// `GL_COLOR_BUFFER_BIT`: the mask bit of the colour buffer.
pub open spec fn color_buffer_bit() -> u32 {
    0x4000
}

/// `GL_STATIC_DRAW`: data that is written once and drawn many times.
pub open spec fn static_draw() -> u32 {
    0x88E4
}

/// `GL_FLOAT`: single-precision components.
pub open spec fn float() -> u32 {
    0x1406
}

/// `GL_UNSIGNED_INT`: 32-bit indices.
pub open spec fn unsigned_int() -> u32 {
    0x1405
}

/// `GL_FALSE`.
pub open spec fn gl_false() -> u8 {
    0
}

/// `GL_TRUE`.
pub open spec fn gl_true() -> u8 {
    1
}

/// `GL_COMPILE_STATUS`.
pub open spec fn compile_status() -> u32 {
    0x8B81
}

/// `GL_LINK_STATUS`.
pub open spec fn link_status() -> u32 {
    0x8B82
}

/// `GL_INFO_LOG_LENGTH`.
pub open spec fn info_log_length() -> u32 {
    0x8B84
}

/// `GL_FRONT_AND_BACK`.
pub open spec fn front_and_back() -> u32 {
    0x0408
}

/// `GL_POINT`: polygons drawn as their corner points.
pub open spec fn point() -> u32 {
    0x1B00
}

/// `GL_LINE`: polygons drawn as their outlines.
pub open spec fn line() -> u32 {
    0x1B01
}

/// `GL_FILL`: polygons drawn filled.
pub open spec fn fill() -> u32 {
    0x1B02
}

/// Reads `gl::ARRAY_BUFFER`. Believed: the bindings give it the registry's
/// value of `GL_ARRAY_BUFFER`.
#[verifier::external_body]
pub(crate) fn read_array_buffer() -> (code: u32)
    ensures
        code == array_buffer(),
{
    gl::ARRAY_BUFFER
}

/// Reads `gl::ELEMENT_ARRAY_BUFFER`. Believed: the bindings give it the
/// registry's value of `GL_ELEMENT_ARRAY_BUFFER`.
#[verifier::external_body]
pub(crate) fn read_element_array_buffer() -> (code: u32)
    ensures
        code == element_array_buffer(),
{
    gl::ELEMENT_ARRAY_BUFFER
}

/// Reads `gl::SHADER_STORAGE_BUFFER`. Believed: the bindings give it the
/// registry's value of `GL_SHADER_STORAGE_BUFFER`.
#[verifier::external_body]
pub(crate) fn read_shader_storage_buffer() -> (code: u32)
    ensures
        code == shader_storage_buffer(),
{
    gl::SHADER_STORAGE_BUFFER
}

/// Reads `gl::VERTEX_SHADER`. Believed: the bindings give it the registry's
/// value of `GL_VERTEX_SHADER`.
#[verifier::external_body]
pub(crate) fn read_vertex_shader() -> (code: u32)
    ensures
        code == vertex_shader(),
{
    gl::VERTEX_SHADER
}

/// Reads `gl::FRAGMENT_SHADER`. Believed: the bindings give it the registry's
/// value of `GL_FRAGMENT_SHADER`.
#[verifier::external_body]
pub(crate) fn read_fragment_shader() -> (code: u32)
    ensures
        code == fragment_shader(),
{
    gl::FRAGMENT_SHADER
}

/// Reads `gl::COMPUTE_SHADER`. Believed: the bindings give it the registry's
/// value of `GL_COMPUTE_SHADER`.
#[verifier::external_body]
pub(crate) fn read_compute_shader() -> (code: u32)
    ensures
        code == compute_shader(),
{
    gl::COMPUTE_SHADER
}

/// Reads `gl::GEOMETRY_SHADER`. Believed: the bindings give it the registry's
/// value of `GL_GEOMETRY_SHADER`.
#[verifier::external_body]
pub(crate) fn read_geometry_shader() -> (code: u32)
    ensures
        code == geometry_shader(),
{
    gl::GEOMETRY_SHADER
}

/// Reads `gl::POINTS`. Believed: the bindings give it the registry's value of
/// `GL_POINTS`.
#[verifier::external_body]
pub(crate) fn read_points() -> (code: u32)
    ensures
        code == points(),
{
    gl::POINTS
}

/// Reads `gl::LINES`. Believed: the bindings give it the registry's value of
/// `GL_LINES`.
#[verifier::external_body]
pub(crate) fn read_lines() -> (code: u32)
    ensures
        code == lines(),
{
    gl::LINES
}

/// Reads `gl::TRIANGLES`. Believed: the bindings give it the registry's value
/// of `GL_TRIANGLES`.
#[verifier::external_body]
pub(crate) fn read_triangles() -> (code: u32)
    ensures
        code == triangles(),
{
    gl::TRIANGLES
}

/// Reads `gl::COLOR_BUFFER_BIT`. Believed: the bindings give it the registry's
/// value of `GL_COLOR_BUFFER_BIT`.
#[verifier::external_body]
pub(crate) fn read_color_buffer_bit() -> (code: u32)
    ensures
        code == color_buffer_bit(),
{
    gl::COLOR_BUFFER_BIT
}

/// Reads `gl::STATIC_DRAW`. Believed: the bindings give it the registry's
/// value of `GL_STATIC_DRAW`.
#[verifier::external_body]
pub(crate) fn read_static_draw() -> (code: u32)
    ensures
        code == static_draw(),
{
    gl::STATIC_DRAW
}

/// Reads `gl::FLOAT`. Believed: the bindings give it the registry's value of
/// `GL_FLOAT`.
#[verifier::external_body]
pub(crate) fn read_float() -> (code: u32)
    ensures
        code == float(),
{
    gl::FLOAT
}

/// Reads `gl::UNSIGNED_INT`. Believed: the bindings give it the registry's
/// value of `GL_UNSIGNED_INT`.
#[verifier::external_body]
pub(crate) fn read_unsigned_int() -> (code: u32)
    ensures
        code == unsigned_int(),
{
    gl::UNSIGNED_INT
}

/// Reads `gl::FALSE`. Believed: the bindings give it the registry's value of
/// `GL_FALSE`, as a `GLboolean`.
#[verifier::external_body]
pub(crate) fn read_false() -> (code: u8)
    ensures
        code == gl_false(),
{
    gl::FALSE
}

/// Reads `gl::TRUE`. Believed: the bindings give it the registry's value of
/// `GL_TRUE`, as a `GLboolean`.
#[verifier::external_body]
pub(crate) fn read_true() -> (code: u8)
    ensures
        code == gl_true(),
{
    gl::TRUE
}

/// Reads `gl::COMPILE_STATUS`. Believed: the bindings give it the registry's
/// value of `GL_COMPILE_STATUS`.
#[verifier::external_body]
pub(crate) fn read_compile_status() -> (code: u32)
    ensures
        code == compile_status(),
{
    gl::COMPILE_STATUS
}

/// Reads `gl::LINK_STATUS`. Believed: the bindings give it the registry's
/// value of `GL_LINK_STATUS`.
#[verifier::external_body]
pub(crate) fn read_link_status() -> (code: u32)
    ensures
        code == link_status(),
{
    gl::LINK_STATUS
}

/// Reads `gl::INFO_LOG_LENGTH`. Believed: the bindings give it the registry's
/// value of `GL_INFO_LOG_LENGTH`.
#[verifier::external_body]
pub(crate) fn read_info_log_length() -> (code: u32)
    ensures
        code == info_log_length(),
{
    gl::INFO_LOG_LENGTH
}

/// Reads `gl::FRONT_AND_BACK`. Believed: the bindings give it the registry's
/// value of `GL_FRONT_AND_BACK`.
#[verifier::external_body]
pub(crate) fn read_front_and_back() -> (code: u32)
    ensures
        code == front_and_back(),
{
    gl::FRONT_AND_BACK
}

/// Reads `gl::POINT`. Believed: the bindings give it the registry's value of
/// `GL_POINT`.
#[verifier::external_body]
pub(crate) fn read_point() -> (code: u32)
    ensures
        code == point(),
{
    gl::POINT
}

/// Reads `gl::LINE`. Believed: the bindings give it the registry's value of
/// `GL_LINE`.
#[verifier::external_body]
pub(crate) fn read_line() -> (code: u32)
    ensures
        code == line(),
{
    gl::LINE
}

/// Reads `gl::FILL`. Believed: the bindings give it the registry's value of
/// `GL_FILL`.
#[verifier::external_body]
pub(crate) fn read_fill() -> (code: u32)
    ensures
        code == fill(),
{
    gl::FILL
}

} // verus!
