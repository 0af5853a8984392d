//! The values that pass between a WebGL program compiled to WebAssembly
//! and the JavaScript that hosts it.

use vstd::prelude::*;

verus! {

pub type GLUint = u32;

pub type GLint = i32;

pub type GLsizei = i32;

pub type GLintptr = i32;

/// A handle to an object that lives on the JavaScript side.
#[derive(Clone, Copy, Debug)]
pub struct JSObject(u32);

impl JSObject {
    /// The number that stands for the object on the JavaScript side.
    pub closed spec fn id(&self) -> u32 {
        self.0
    }

    /// The handle that stands for no object.
    pub fn null() -> (object: Self)
        ensures
            object.id() == 0,
    {
        JSObject(0)
    }

    /// The handle with the given number, as the host hands it over.
    pub fn from_raw(raw: u32) -> (object: Self)
        ensures
            object.id() == raw,
    {
        JSObject(raw)
    }

    /// The handle's number, to hand back to the host.
    pub fn raw(&self) -> (raw: u32)
        ensures
            raw == self.id(),
    {
        self.0
    }

    /// The object to bind: the one given, or the null handle to unbind.
    pub fn or_null(object: Option<JSObject>) -> (bound: Self)
        ensures
            bound.id() == match object {
                Some(o) => o.id(),
                None => 0,
            },
    {
        match object {
            Some(o) => o,
            None => JSObject::null(),
        }
    }
}

/// The WebGL constants the triangle program uses.
#[derive(Clone, Copy, Debug, PartialEq, Eq, Structural)]
pub enum GLEnum {
    Triangles,
    ArrayBuffer,
    ElementArrayBuffer,
    VertexShader,
    FragmentShader,
    Byte,
    UnsignedByte,
    Short,
    UnsignedShort,
    Int,
    UnsignedInt,
    Float,
    StaticDraw,
    DynamicDraw,
    ColorBufferBit,
}

impl GLEnum {
    /// The number WebGL gives the constant.
    pub open spec fn code(&self) -> u32 {
        match self {
            GLEnum::Triangles => 0x0004,
            GLEnum::ArrayBuffer => 0x8892,
            GLEnum::ElementArrayBuffer => 0x8893,
            GLEnum::VertexShader => 0x8B31,
            GLEnum::FragmentShader => 0x8B30,
            GLEnum::Byte => 0x1400,
            GLEnum::UnsignedByte => 0x1401,
            GLEnum::Short => 0x1402,
            GLEnum::UnsignedShort => 0x1403,
            GLEnum::Int => 0x1404,
            GLEnum::UnsignedInt => 0x1405,
            GLEnum::Float => 0x1406,
            GLEnum::StaticDraw => 0x88E4,
            GLEnum::DynamicDraw => 0x88E8,
            GLEnum::ColorBufferBit => 0x4000,
        }
    }

    /// The number WebGL gives the constant, as the host takes it.
    pub fn value(&self) -> (value: u32)
        ensures
            value == self.code(),
    {
        match self {
            GLEnum::Triangles => 0x0004,
            GLEnum::ArrayBuffer => 0x8892,
            GLEnum::ElementArrayBuffer => 0x8893,
            GLEnum::VertexShader => 0x8B31,
            GLEnum::FragmentShader => 0x8B30,
            GLEnum::Byte => 0x1400,
            GLEnum::UnsignedByte => 0x1401,
            GLEnum::Short => 0x1402,
            GLEnum::UnsignedShort => 0x1403,
            GLEnum::Int => 0x1404,
            GLEnum::UnsignedInt => 0x1405,
            GLEnum::Float => 0x1406,
            GLEnum::StaticDraw => 0x88E4,
            GLEnum::DynamicDraw => 0x88E8,
            GLEnum::ColorBufferBit => 0x4000,
        }
    }
}

/// No two constants share a number.
pub proof fn codes_are_distinct(a: GLEnum, b: GLEnum)
    requires
        a.code() == b.code(),
    ensures
        a == b,
{
}

/// The location the host reports for a vertex attribute. The host
/// answers -1 for a name the program does not have; any other answer is
/// the location, taken as an unsigned number.
pub open spec fn location_of(answer: GLint) -> Option<GLUint> {
    if answer == -1 {
        None
    } else if answer >= 0 {
        Some(answer as u32)
    } else {
        Some((answer + 0x1_0000_0000) as u32)
    }
}

/// Reads the host's answer to a request for an attribute's location.
pub fn attrib_location(answer: GLint) -> (location: Option<GLUint>)
    ensures
        location == location_of(answer),
{
    if answer == -1 {
        None
    } else {
        let unsigned: u32 = answer as u32;
        assert(answer as u32 == if answer >= 0i32 {
            answer as u32
        } else {
            (answer + 0x1_0000_0000) as u32
        }) by (bit_vector);
        Some(unsigned)
    }
}

} // verus!
