//! Attributes: the fixed-layout cursor value that mirrors the native
//! `Dwarf_Attribute`, and the table that decides from an attribute's form how
//! its value is read.
use core::marker::PhantomData;
use vstd::prelude::*;

use crate::dwarf::Dwarf;

verus! {

pub const DW_FORM_ADDR: u32 = 0x01;
pub const DW_FORM_BLOCK2: u32 = 0x03;
pub const DW_FORM_BLOCK4: u32 = 0x04;
pub const DW_FORM_DATA2: u32 = 0x05;
pub const DW_FORM_DATA4: u32 = 0x06;
pub const DW_FORM_DATA8: u32 = 0x07;
pub const DW_FORM_STRING: u32 = 0x08;
pub const DW_FORM_BLOCK: u32 = 0x09;
pub const DW_FORM_BLOCK1: u32 = 0x0a;
pub const DW_FORM_DATA1: u32 = 0x0b;
pub const DW_FORM_FLAG: u32 = 0x0c;
pub const DW_FORM_SDATA: u32 = 0x0d;
pub const DW_FORM_STRP: u32 = 0x0e;
pub const DW_FORM_UDATA: u32 = 0x0f;
pub const DW_FORM_REF_ADDR: u32 = 0x10;
pub const DW_FORM_REF1: u32 = 0x11;
pub const DW_FORM_REF2: u32 = 0x12;
pub const DW_FORM_REF4: u32 = 0x13;
pub const DW_FORM_REF8: u32 = 0x14;
pub const DW_FORM_REF_UDATA: u32 = 0x15;
pub const DW_FORM_INDIRECT: u32 = 0x16;
pub const DW_FORM_SEC_OFFSET: u32 = 0x17;
pub const DW_FORM_EXPRLOC: u32 = 0x18;
pub const DW_FORM_FLAG_PRESENT: u32 = 0x19;
pub const DW_FORM_REF_SIG8: u32 = 0x20;
pub const DW_FORM_GNU_REF_ALT: u32 = 0x1f20;
pub const DW_FORM_GNU_STRP_ALT: u32 = 0x1f21;

/// How the value of an attribute is read, by its form.
#[derive(Debug, Clone, Copy, PartialEq, Eq, Structural)]
pub enum ValueKind {
    String,
    Unsigned,
    Signed,
    Address,
    Die,
    Bytes,
    Bool,
    /// A form outside the table, kept rather than treated as a failure.
    UnknownForm(u32),
}

/// The fixed mapping from an attribute form to the way its value is read.
pub open spec fn spec_form_kind(form: u32) -> ValueKind {
    if form == DW_FORM_ADDR {
        ValueKind::Address
    } else if form == DW_FORM_INDIRECT || form == DW_FORM_STRP || form == DW_FORM_STRING || form
        == DW_FORM_GNU_STRP_ALT {
        ValueKind::String
    } else if form == DW_FORM_REF_ADDR || form == DW_FORM_REF_UDATA || form == DW_FORM_REF8 || form
        == DW_FORM_REF4 || form == DW_FORM_REF2 || form == DW_FORM_REF1 || form == DW_FORM_REF_SIG8
        || form == DW_FORM_GNU_REF_ALT {
        ValueKind::Die
    } else if form == DW_FORM_SEC_OFFSET || form == DW_FORM_UDATA || form == DW_FORM_DATA8 || form
        == DW_FORM_DATA4 || form == DW_FORM_DATA2 || form == DW_FORM_DATA1 {
        ValueKind::Unsigned
    } else if form == DW_FORM_SDATA {
        ValueKind::Signed
    } else if form == DW_FORM_FLAG_PRESENT || form == DW_FORM_FLAG {
        ValueKind::Bool
    } else if form == DW_FORM_EXPRLOC || form == DW_FORM_BLOCK4 || form == DW_FORM_BLOCK2 || form
        == DW_FORM_BLOCK1 || form == DW_FORM_BLOCK {
        ValueKind::Bytes
    } else {
        ValueKind::UnknownForm(form)
    }
}

/// Whether `form` is one of the forms that the table names.
pub open spec fn known_form(form: u32) -> bool {
    form == DW_FORM_ADDR || form == DW_FORM_BLOCK2 || form == DW_FORM_BLOCK4 || form
        == DW_FORM_DATA2 || form == DW_FORM_DATA4 || form == DW_FORM_DATA8 || form
        == DW_FORM_STRING || form == DW_FORM_BLOCK || form == DW_FORM_BLOCK1 || form
        == DW_FORM_DATA1 || form == DW_FORM_FLAG || form == DW_FORM_SDATA || form == DW_FORM_STRP
        || form == DW_FORM_UDATA || form == DW_FORM_REF_ADDR || form == DW_FORM_REF1 || form
        == DW_FORM_REF2 || form == DW_FORM_REF4 || form == DW_FORM_REF8 || form
        == DW_FORM_REF_UDATA || form == DW_FORM_INDIRECT || form == DW_FORM_SEC_OFFSET || form
        == DW_FORM_EXPRLOC || form == DW_FORM_FLAG_PRESENT || form == DW_FORM_REF_SIG8 || form
        == DW_FORM_GNU_REF_ALT || form == DW_FORM_GNU_STRP_ALT
}

/// How a value of the given form is read.
pub fn form_kind(form: u32) -> (r: ValueKind)
    ensures
        r == spec_form_kind(form),
{
    match form {
        DW_FORM_ADDR => ValueKind::Address,
        DW_FORM_INDIRECT | DW_FORM_STRP | DW_FORM_STRING | DW_FORM_GNU_STRP_ALT => ValueKind::String,
        DW_FORM_REF_ADDR | DW_FORM_REF_UDATA | DW_FORM_REF8 | DW_FORM_REF4 | DW_FORM_REF2
        | DW_FORM_REF1 | DW_FORM_REF_SIG8 | DW_FORM_GNU_REF_ALT => ValueKind::Die,
        DW_FORM_SEC_OFFSET | DW_FORM_UDATA | DW_FORM_DATA8 | DW_FORM_DATA4 | DW_FORM_DATA2
        | DW_FORM_DATA1 => ValueKind::Unsigned,
        DW_FORM_SDATA => ValueKind::Signed,
        DW_FORM_FLAG_PRESENT | DW_FORM_FLAG => ValueKind::Bool,
        DW_FORM_EXPRLOC | DW_FORM_BLOCK4 | DW_FORM_BLOCK2 | DW_FORM_BLOCK1 | DW_FORM_BLOCK => {
            ValueKind::Bytes
        },
        _ => ValueKind::UnknownForm(form),
    }
}

/// A cursor on one attribute of a die.
///
/// The fields are those of the native attribute record, in its order: the
/// attribute's name code, its form, the address of its encoded value and the
/// address of its unit. Like a die, it carries the lifetime of its session,
/// and one built with `from_raw_parts` holds whatever it was given: only
/// attributes that the native library wrote may be handed back to it.
#[derive(Debug, Clone, Copy)]
pub struct Attribute<'dw> {
    pub code: u32,
    pub form: u32,
    pub valp: usize,
    pub cu: usize,
    pub phantom: PhantomData<&'dw Dwarf<'dw>>,
}

impl<'dw> Attribute<'dw> {
    /// An attribute cursor holding the given native field values.
    pub fn from_raw_parts(code: u32, form: u32, valp: usize, cu: usize) -> (r: Attribute<'dw>)
        ensures
            r.code == code,
            r.form == form,
            r.valp == valp,
            r.cu == cu,
    {
        Attribute { code, form, valp, cu, phantom: PhantomData }
    }

    /// The attribute's name code.
    pub fn name(&self) -> (r: u32)
        ensures
            r == self.code,
    {
        self.code
    }

    /// The attribute's form.
    pub fn form(&self) -> (r: u32)
        ensures
            r == self.form,
    {
        self.form
    }

    /// Whether the attribute is encoded in `form`.
    pub fn has_form(&self, form: u32) -> (r: bool)
        ensures
            r == (self.form == form),
    {
        self.form == form
    }

    /// How this attribute's value is read; a form outside the table gives
    /// `UnknownForm` with that form rather than a failure.
    pub fn value_kind(&self) -> (r: ValueKind)
        ensures
            r == spec_form_kind(self.form),
            !known_form(self.form) ==> r == ValueKind::UnknownForm(self.form),
    {
        form_kind(self.form)
    }
}

impl<'dw> Default for Attribute<'dw> {
    /// The empty attribute cursor, a destination for a native call to fill.
    fn default() -> (r: Attribute<'dw>)
        ensures
            r.code == 0,
            r.form == 0,
            r.valp == 0,
            r.cu == 0,
    {
        Attribute { code: 0, form: 0, valp: 0, cu: 0, phantom: PhantomData }
    }
}

/// Decoding never fails on a form that the table does not name: every
/// attribute of such a form reads as `UnknownForm` of that form, and every
/// form that the table names reads as one of the decoded kinds.
pub proof fn lemma_unknown_form_kept(attr: Attribute)
    ensures
        !known_form(attr.form) ==> spec_form_kind(attr.form) == ValueKind::UnknownForm(attr.form),
        known_form(attr.form) ==> spec_form_kind(attr.form) !is UnknownForm,
{
}

} // verus!
