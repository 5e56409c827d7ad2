//! Address descriptors and field specifications: how one location inside the
//! host binary is identified (fixed offset from the module base, or export
//! ordinal) and what kind of value lives there.

use vstd::prelude::*;

verus! {

/// Shape of one machine-level value the host exchanges through an accessor.
#[derive(Clone, Copy, PartialEq, Eq, Structural, Debug)]
pub enum ValueType {
    U32,
    U16,
    /// 16.16 fixed-point quantity.
    Fixed16,
    /// Untyped pointer-sized value.
    Ptr,
}

/// Calling convention of a callable location inside the host binary.
#[derive(Clone, Copy, PartialEq, Eq, Structural, Debug)]
pub enum Convention {
    Stdcall,
    Fastcall,
    Cdecl,
}

/// Argument and return layout of a callable location.
pub struct FnSignature {
    pub args: Vec<ValueType>,
    /// `None` means the callee returns nothing.
    pub ret: Option<ValueType>,
}

/// Mathematical value of a `FnSignature`.
#[verifier::ext_equal]
pub ghost struct FnSignatureView {
    pub args: Seq<ValueType>,
    pub ret: Option<ValueType>,
}

impl View for FnSignature {
    type V = FnSignatureView;

    open spec fn view(&self) -> FnSignatureView {
        FnSignatureView { args: self.args@, ret: self.ret }
    }
}

/// Semantic type carried by an accessor: a readable/writable datum, a
/// possibly-null pointer checked by consumers, or callable host code with a
/// documented signature and convention.
pub enum SemanticType {
    Data(ValueType),
    OptionalPointer(ValueType),
    Callable(FnSignature, Convention),
}

/// Mathematical value of a `SemanticType`.
#[verifier::ext_equal]
pub ghost enum SemanticTypeView {
    Data(ValueType),
    OptionalPointer(ValueType),
    Callable(FnSignatureView, Convention),
}

impl View for SemanticType {
    type V = SemanticTypeView;

    open spec fn view(&self) -> SemanticTypeView {
        match self {
            SemanticType::Data(v) => SemanticTypeView::Data(*v),
            SemanticType::OptionalPointer(v) => SemanticTypeView::OptionalPointer(*v),
            SemanticType::Callable(sig, conv) => SemanticTypeView::Callable(sig@, *conv),
        }
    }
}

/// Where one field lives: a fixed byte offset from the module's load base,
/// or an entry of the module's export table, found by ordinal.
#[derive(Clone, Copy, PartialEq, Eq, Structural, Debug)]
pub enum AddressDescriptor {
    Offset(u32),
    Ordinal(u16),
}

/// One named entry of a version table.
pub struct FieldSpec {
    pub name: String,
    pub ty: SemanticType,
    pub location: AddressDescriptor,
}

/// Mathematical value of a `FieldSpec`.
#[verifier::ext_equal]
pub ghost struct FieldSpecView {
    pub name: Seq<char>,
    pub ty: SemanticTypeView,
    pub location: AddressDescriptor,
}

impl View for FieldSpec {
    type V = FieldSpecView;

    open spec fn view(&self) -> FieldSpecView {
        FieldSpecView { name: self.name@, ty: self.ty@, location: self.location }
    }
}

/// The views of a sequence of field specifications, in order.
pub open spec fn field_views(s: Seq<FieldSpec>) -> Seq<FieldSpecView> {
    s.map_values(|f: FieldSpec| f@)
}

/// A data field's specification.
pub open spec fn data_field(name: Seq<char>, vt: ValueType, loc: AddressDescriptor) -> FieldSpecView {
    FieldSpecView { name, ty: SemanticTypeView::Data(vt), location: loc }
}

/// An optional-pointer field's specification.
pub open spec fn opt_ptr_field(
    name: Seq<char>,
    vt: ValueType,
    loc: AddressDescriptor,
) -> FieldSpecView {
    FieldSpecView { name, ty: SemanticTypeView::OptionalPointer(vt), location: loc }
}

/// A callable field's specification.
pub open spec fn callable_field(
    name: Seq<char>,
    args: Seq<ValueType>,
    ret: Option<ValueType>,
    conv: Convention,
    loc: AddressDescriptor,
) -> FieldSpecView {
    FieldSpecView {
        name,
        ty: SemanticTypeView::Callable(FnSignatureView { args, ret }, conv),
        location: loc,
    }
}

/// Build a data field.
pub fn data(name: &str, vt: ValueType, loc: AddressDescriptor) -> (f: FieldSpec)
    ensures
        f@ == data_field(name@, vt, loc),
{
    FieldSpec { name: name.to_owned(), ty: SemanticType::Data(vt), location: loc }
}

/// Build an optional-pointer field.
pub fn opt_ptr(name: &str, vt: ValueType, loc: AddressDescriptor) -> (f: FieldSpec)
    ensures
        f@ == opt_ptr_field(name@, vt, loc),
{
    FieldSpec { name: name.to_owned(), ty: SemanticType::OptionalPointer(vt), location: loc }
}

/// Build a callable field.
pub fn callable(
    name: &str,
    args: Vec<ValueType>,
    ret: Option<ValueType>,
    conv: Convention,
    loc: AddressDescriptor,
) -> (f: FieldSpec)
    ensures
        f@ == callable_field(name@, args@, ret, conv, loc),
{
    FieldSpec {
        name: name.to_owned(),
        ty: SemanticType::Callable(FnSignature { args, ret }, conv),
        location: loc,
    }
}

impl FnSignature {
    /// Copy of a signature, element by element.
    pub fn duplicate(&self) -> (r: FnSignature)
        ensures
            r@ == self@,
    {
        let mut args: Vec<ValueType> = Vec::new();
        let mut i: usize = 0;
        while i < self.args.len()
            invariant
                i <= self.args.len(),
                args@ == self.args@.take(i as int),
            decreases self.args.len() - i,
        {
            args.push(self.args[i]);
            proof {
                assert(args@ =~= self.args@.take(i + 1));
            }
            i = i + 1;
        }
        proof {
            assert(args@ =~= self.args@);
        }
        let r = FnSignature { args, ret: self.ret };
        proof {
            assert(r@ =~= self@);
        }
        r
    }
}

impl SemanticType {
    /// Copy of a semantic type.
    pub fn duplicate(&self) -> (r: SemanticType)
        ensures
            r@ == self@,
    {
        match self {
            SemanticType::Data(v) => SemanticType::Data(*v),
            SemanticType::OptionalPointer(v) => SemanticType::OptionalPointer(*v),
            SemanticType::Callable(sig, conv) => SemanticType::Callable(sig.duplicate(), *conv),
        }
    }
}

impl FieldSpec {
    /// Copy of a field specification; the copy has the same view.
    pub fn duplicate(&self) -> (r: FieldSpec)
        ensures
            r@ == self@,
    {
        let r = FieldSpec { name: self.name.clone(), ty: self.ty.duplicate(), location: self.location };
        proof {
            assert(r@ =~= self@);
        }
        r
    }
}

} // verus!
