//! Layout fingerprints: the binary shape of the root object, field by field,
//! compared for strict structural equality before any call crosses the boundary.
use vstd::prelude::*;
use vstd::layout::size_of;

verus! {

/// The primitive representation of one field.
#[derive(Debug, Clone, Copy, PartialEq, Eq, Structural)]
pub enum FieldKind {
    Unsigned,
    Signed,
    Bool,
    Pointer,
    FnPointer,
    EnumTag,
}

/// The byte under which each kind is exported.
pub open spec fn field_kind_code(k: FieldKind) -> u8 {
    match k {
        FieldKind::Unsigned => 0,
        FieldKind::Signed => 1,
        FieldKind::Bool => 2,
        FieldKind::Pointer => 3,
        FieldKind::FnPointer => 4,
        FieldKind::EnumTag => 5,
    }
}

impl FieldKind {
    /// The byte under which this kind is exported.
    pub fn code(&self) -> (r: u8)
        ensures
            r == field_kind_code(*self),
    {
        match self {
            FieldKind::Unsigned => 0,
            FieldKind::Signed => 1,
            FieldKind::Bool => 2,
            FieldKind::Pointer => 3,
            FieldKind::FnPointer => 4,
            FieldKind::EnumTag => 5,
        }
    }

    /// The kind a byte stands for, if any.
    pub fn from_code(code: u8) -> (r: Option<FieldKind>)
        ensures
            r matches Some(k) ==> field_kind_code(k) == code,
            r is None ==> code > 5,
    {
        match code {
            0 => Some(FieldKind::Unsigned),
            1 => Some(FieldKind::Signed),
            2 => Some(FieldKind::Bool),
            3 => Some(FieldKind::Pointer),
            4 => Some(FieldKind::FnPointer),
            5 => Some(FieldKind::EnumTag),
            _ => None,
        }
    }
}

/// One field: its representation, size and alignment in bytes.
#[derive(Debug, Clone, Copy, PartialEq, Eq, Structural)]
pub struct FieldLayout {
    pub kind: FieldKind,
    pub size: usize,
    pub align: usize,
}

/// The fingerprint of a `repr(C)` type: its fields in declaration order.
#[derive(Debug)]
pub struct TypeLayout {
    pub fields: Vec<FieldLayout>,
}

impl View for TypeLayout {
    type V = Seq<FieldLayout>;

    open spec fn view(&self) -> Seq<FieldLayout> {
        self.fields@
    }
}

/// Strict structural equality: same field count, and each field alike in
/// representation, size and alignment, in the same order.
pub fn layouts_match(expected: &TypeLayout, found: &TypeLayout) -> (r: bool)
    ensures
        r <==> expected@ == found@,
{
    let n = expected.fields.len();
    if n != found.fields.len() {
        return false;
    }
    let mut i: usize = 0;
    while i < n
        invariant
            n == expected@.len(),
            n == found@.len(),
            i <= n,
            forall|j: int| 0 <= j < i ==> expected@[j] == found@[j],
        decreases n - i,
    {
        if expected.fields[i] != found.fields[i] {
            return false;
        }
        i = i + 1;
    }
    assert(expected@ =~= found@);
    true
}

/// A pointer-sized field of the given kind.
pub open spec fn pointer_field(kind: FieldKind) -> FieldLayout {
    FieldLayout { kind, size: size_of::<usize>() as usize, align: size_of::<usize>() as usize }
}

/// The host's fingerprint of the root object: the instance pointer, the
/// library handle, the capability byte, then the call table of the mandatory
/// interface (name, capabilities, release: 3 entries), of keyboard writing (4)
/// and of mouse writing (5).
pub open spec fn root_layout_spec() -> Seq<FieldLayout> {
    seq![
        pointer_field(FieldKind::Pointer),
        pointer_field(FieldKind::Pointer),
        FieldLayout { kind: FieldKind::Unsigned, size: 1, align: 1 },
    ] + Seq::new(12, |i: int| pointer_field(FieldKind::FnPointer))
}

/// Builds the host's fingerprint of the root object.
pub fn root_layout() -> (r: TypeLayout)
    ensures
        r@ == root_layout_spec(),
{
    let p = core::mem::size_of::<usize>();
    let ptr = FieldLayout { kind: FieldKind::Pointer, size: p, align: p };
    let fnp = FieldLayout { kind: FieldKind::FnPointer, size: p, align: p };
    let mut fields: Vec<FieldLayout> = Vec::new();
    fields.push(ptr);
    fields.push(ptr);
    fields.push(FieldLayout { kind: FieldKind::Unsigned, size: 1, align: 1 });
    let mut i: usize = 0;
    while i < 12
        invariant
            i <= 12,
            fields@.len() == 3 + i,
            fields@.subrange(0, 3) == seq![ptr, ptr, FieldLayout { kind: FieldKind::Unsigned, size: 1, align: 1 }],
            forall|j: int| 3 <= j < 3 + i ==> fields@[j] == fnp,
        decreases 12 - i,
    {
        fields.push(fnp);
        i = i + 1;
    }
    assert(fields@ =~= root_layout_spec());
    TypeLayout { fields }
}

} // verus!
