//! The names (dictionary keys and name values) that the engine reads and writes,
//! each as a spec value and as a function that builds it.
use vstd::prelude::*;

verus! {

/// `Info`
pub open spec fn name_info() -> Seq<u8> {
    seq![73u8, 110u8, 102u8, 111u8]
}

pub fn key_info() -> (r: Vec<u8>)
    ensures
        r@ == name_info(),
{
    vec![73u8, 110u8, 102u8, 111u8]
}

/// `Metadata`
pub open spec fn name_metadata() -> Seq<u8> {
    seq![77u8, 101u8, 116u8, 97u8, 100u8, 97u8, 116u8, 97u8]
}

pub fn key_metadata() -> (r: Vec<u8>)
    ensures
        r@ == name_metadata(),
{
    vec![77u8, 101u8, 116u8, 97u8, 100u8, 97u8, 116u8, 97u8]
}

/// `Root`
pub open spec fn name_root() -> Seq<u8> {
    seq![82u8, 111u8, 111u8, 116u8]
}

pub fn key_root() -> (r: Vec<u8>)
    ensures
        r@ == name_root(),
{
    vec![82u8, 111u8, 111u8, 116u8]
}

/// `Font`
pub open spec fn name_font() -> Seq<u8> {
    seq![70u8, 111u8, 110u8, 116u8]
}

pub fn key_font() -> (r: Vec<u8>)
    ensures
        r@ == name_font(),
{
    vec![70u8, 111u8, 110u8, 116u8]
}

/// `Type`
pub open spec fn name_type() -> Seq<u8> {
    seq![84u8, 121u8, 112u8, 101u8]
}

pub fn key_type() -> (r: Vec<u8>)
    ensures
        r@ == name_type(),
{
    vec![84u8, 121u8, 112u8, 101u8]
}

/// `Subtype`
pub open spec fn name_subtype() -> Seq<u8> {
    seq![83u8, 117u8, 98u8, 116u8, 121u8, 112u8, 101u8]
}

pub fn key_subtype() -> (r: Vec<u8>)
    ensures
        r@ == name_subtype(),
{
    vec![83u8, 117u8, 98u8, 116u8, 121u8, 112u8, 101u8]
}

/// `Image`
pub open spec fn name_image() -> Seq<u8> {
    seq![73u8, 109u8, 97u8, 103u8, 101u8]
}

pub fn key_image() -> (r: Vec<u8>)
    ensures
        r@ == name_image(),
{
    vec![73u8, 109u8, 97u8, 103u8, 101u8]
}

/// `XObject`
pub open spec fn name_xobject() -> Seq<u8> {
    seq![88u8, 79u8, 98u8, 106u8, 101u8, 99u8, 116u8]
}

pub fn key_xobject() -> (r: Vec<u8>)
    ensures
        r@ == name_xobject(),
{
    vec![88u8, 79u8, 98u8, 106u8, 101u8, 99u8, 116u8]
}

/// `Filter`
pub open spec fn name_filter() -> Seq<u8> {
    seq![70u8, 105u8, 108u8, 116u8, 101u8, 114u8]
}

pub fn key_filter() -> (r: Vec<u8>)
    ensures
        r@ == name_filter(),
{
    vec![70u8, 105u8, 108u8, 116u8, 101u8, 114u8]
}

/// `ColorSpace`
pub open spec fn name_color_space() -> Seq<u8> {
    seq![67u8, 111u8, 108u8, 111u8, 114u8, 83u8, 112u8, 97u8, 99u8, 101u8]
}

pub fn key_color_space() -> (r: Vec<u8>)
    ensures
        r@ == name_color_space(),
{
    vec![67u8, 111u8, 108u8, 111u8, 114u8, 83u8, 112u8, 97u8, 99u8, 101u8]
}

/// `Width`
pub open spec fn name_width() -> Seq<u8> {
    seq![87u8, 105u8, 100u8, 116u8, 104u8]
}

pub fn key_width() -> (r: Vec<u8>)
    ensures
        r@ == name_width(),
{
    vec![87u8, 105u8, 100u8, 116u8, 104u8]
}

/// `Height`
pub open spec fn name_height() -> Seq<u8> {
    seq![72u8, 101u8, 105u8, 103u8, 104u8, 116u8]
}

pub fn key_height() -> (r: Vec<u8>)
    ensures
        r@ == name_height(),
{
    vec![72u8, 101u8, 105u8, 103u8, 104u8, 116u8]
}

/// `Length`
pub open spec fn name_length() -> Seq<u8> {
    seq![76u8, 101u8, 110u8, 103u8, 116u8, 104u8]
}

pub fn key_length() -> (r: Vec<u8>)
    ensures
        r@ == name_length(),
{
    vec![76u8, 101u8, 110u8, 103u8, 116u8, 104u8]
}

/// `BitsPerComponent`
pub open spec fn name_bits_per_component() -> Seq<u8> {
    seq![66u8, 105u8, 116u8, 115u8, 80u8, 101u8, 114u8, 67u8, 111u8, 109u8, 112u8, 111u8, 110u8, 101u8, 110u8, 116u8]
}

pub fn key_bits_per_component() -> (r: Vec<u8>)
    ensures
        r@ == name_bits_per_component(),
{
    vec![66u8, 105u8, 116u8, 115u8, 80u8, 101u8, 114u8, 67u8, 111u8, 109u8, 112u8, 111u8, 110u8, 101u8, 110u8, 116u8]
}

/// `Interpolate`
pub open spec fn name_interpolate() -> Seq<u8> {
    seq![73u8, 110u8, 116u8, 101u8, 114u8, 112u8, 111u8, 108u8, 97u8, 116u8, 101u8]
}

pub fn key_interpolate() -> (r: Vec<u8>)
    ensures
        r@ == name_interpolate(),
{
    vec![73u8, 110u8, 116u8, 101u8, 114u8, 112u8, 111u8, 108u8, 97u8, 116u8, 101u8]
}

/// `DCTDecode`
pub open spec fn name_dct_decode() -> Seq<u8> {
    seq![68u8, 67u8, 84u8, 68u8, 101u8, 99u8, 111u8, 100u8, 101u8]
}

pub fn key_dct_decode() -> (r: Vec<u8>)
    ensures
        r@ == name_dct_decode(),
{
    vec![68u8, 67u8, 84u8, 68u8, 101u8, 99u8, 111u8, 100u8, 101u8]
}

/// `FlateDecode`
pub open spec fn name_flate_decode() -> Seq<u8> {
    seq![70u8, 108u8, 97u8, 116u8, 101u8, 68u8, 101u8, 99u8, 111u8, 100u8, 101u8]
}

pub fn key_flate_decode() -> (r: Vec<u8>)
    ensures
        r@ == name_flate_decode(),
{
    vec![70u8, 108u8, 97u8, 116u8, 101u8, 68u8, 101u8, 99u8, 111u8, 100u8, 101u8]
}

/// `DeviceRGB`
pub open spec fn name_device_rgb() -> Seq<u8> {
    seq![68u8, 101u8, 118u8, 105u8, 99u8, 101u8, 82u8, 71u8, 66u8]
}

pub fn key_device_rgb() -> (r: Vec<u8>)
    ensures
        r@ == name_device_rgb(),
{
    vec![68u8, 101u8, 118u8, 105u8, 99u8, 101u8, 82u8, 71u8, 66u8]
}

/// `DeviceGray`
pub open spec fn name_device_gray() -> Seq<u8> {
    seq![68u8, 101u8, 118u8, 105u8, 99u8, 101u8, 71u8, 114u8, 97u8, 121u8]
}

pub fn key_device_gray() -> (r: Vec<u8>)
    ensures
        r@ == name_device_gray(),
{
    vec![68u8, 101u8, 118u8, 105u8, 99u8, 101u8, 71u8, 114u8, 97u8, 121u8]
}

} // verus!
