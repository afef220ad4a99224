//! Types that can be members of a vertex, and how each is laid out.

use vstd::prelude::*;

verus! {

/// The scalar type that a vertex member is made of.
#[derive(Clone, Copy, Debug, PartialEq, Eq, Structural)]
pub enum VertexMemberTy {
    I8,
    U8,
    I16,
    U16,
    I32,
    U32,
    F32,
    F64,
}

/// Trait for data types that can be used as vertex members.
pub trait VertexMember {
    /// The scalar type that the member is made of.
    spec fn member_ty() -> VertexMemberTy;

    /// The number of scalars that the member holds.
    spec fn array_size() -> nat;

    /// Returns the format and array size of the member.
    fn format() -> (r: (VertexMemberTy, usize))
        requires
            Self::array_size() <= usize::MAX,
        ensures
            r.0 == Self::member_ty(),
            r.1 == Self::array_size(),
    ;
}

impl VertexMember for i8 {
    open spec fn member_ty() -> VertexMemberTy {
        VertexMemberTy::I8
    }

    open spec fn array_size() -> nat {
        1
    }

    fn format() -> (r: (VertexMemberTy, usize)) {
        (VertexMemberTy::I8, 1)
    }
}

impl VertexMember for u8 {
    open spec fn member_ty() -> VertexMemberTy {
        VertexMemberTy::U8
    }

    open spec fn array_size() -> nat {
        1
    }

    fn format() -> (r: (VertexMemberTy, usize)) {
        (VertexMemberTy::U8, 1)
    }
}

impl VertexMember for i16 {
    open spec fn member_ty() -> VertexMemberTy {
        VertexMemberTy::I16
    }

    open spec fn array_size() -> nat {
        1
    }

    fn format() -> (r: (VertexMemberTy, usize)) {
        (VertexMemberTy::I16, 1)
    }
}

impl VertexMember for u16 {
    open spec fn member_ty() -> VertexMemberTy {
        VertexMemberTy::U16
    }

    open spec fn array_size() -> nat {
        1
    }

    fn format() -> (r: (VertexMemberTy, usize)) {
        (VertexMemberTy::U16, 1)
    }
}

impl VertexMember for i32 {
    open spec fn member_ty() -> VertexMemberTy {
        VertexMemberTy::I32
    }

    open spec fn array_size() -> nat {
        1
    }

    fn format() -> (r: (VertexMemberTy, usize)) {
        (VertexMemberTy::I32, 1)
    }
}

impl VertexMember for u32 {
    open spec fn member_ty() -> VertexMemberTy {
        VertexMemberTy::U32
    }

    open spec fn array_size() -> nat {
        1
    }

    fn format() -> (r: (VertexMemberTy, usize)) {
        (VertexMemberTy::U32, 1)
    }
}

impl<T: VertexMember> VertexMember for (T,) {
    open spec fn member_ty() -> VertexMemberTy {
        T::member_ty()
    }

    open spec fn array_size() -> nat {
        T::array_size()
    }

    fn format() -> (r: (VertexMemberTy, usize)) {
        <T as VertexMember>::format()
    }
}

impl<T: VertexMember> VertexMember for (T, T) {
    open spec fn member_ty() -> VertexMemberTy {
        T::member_ty()
    }

    open spec fn array_size() -> nat {
        T::array_size() * 2
    }

    fn format() -> (r: (VertexMemberTy, usize)) {
        let (ty, sz) = <T as VertexMember>::format();
        (ty, sz * 2)
    }
}

impl<T: VertexMember> VertexMember for (T, T, T) {
    open spec fn member_ty() -> VertexMemberTy {
        T::member_ty()
    }

    open spec fn array_size() -> nat {
        T::array_size() * 3
    }

    fn format() -> (r: (VertexMemberTy, usize)) {
        let (ty, sz) = <T as VertexMember>::format();
        (ty, sz * 3)
    }
}

impl<T: VertexMember> VertexMember for (T, T, T, T) {
    open spec fn member_ty() -> VertexMemberTy {
        T::member_ty()
    }

    open spec fn array_size() -> nat {
        T::array_size() * 4
    }

    fn format() -> (r: (VertexMemberTy, usize)) {
        let (ty, sz) = <T as VertexMember>::format();
        (ty, sz * 4)
    }
}

impl<T: VertexMember> VertexMember for [T; 1] {
    open spec fn member_ty() -> VertexMemberTy {
        T::member_ty()
    }

    open spec fn array_size() -> nat {
        T::array_size()
    }

    fn format() -> (r: (VertexMemberTy, usize)) {
        <T as VertexMember>::format()
    }
}

impl<T: VertexMember> VertexMember for [T; 2] {
    open spec fn member_ty() -> VertexMemberTy {
        T::member_ty()
    }

    open spec fn array_size() -> nat {
        T::array_size() * 2
    }

    fn format() -> (r: (VertexMemberTy, usize)) {
        let (ty, sz) = <T as VertexMember>::format();
        (ty, sz * 2)
    }
}

impl<T: VertexMember> VertexMember for [T; 3] {
    open spec fn member_ty() -> VertexMemberTy {
        T::member_ty()
    }

    open spec fn array_size() -> nat {
        T::array_size() * 3
    }

    fn format() -> (r: (VertexMemberTy, usize)) {
        let (ty, sz) = <T as VertexMember>::format();
        (ty, sz * 3)
    }
}

impl<T: VertexMember> VertexMember for [T; 4] {
    open spec fn member_ty() -> VertexMemberTy {
        T::member_ty()
    }

    open spec fn array_size() -> nat {
        T::array_size() * 4
    }

    fn format() -> (r: (VertexMemberTy, usize)) {
        let (ty, sz) = <T as VertexMember>::format();
        (ty, sz * 4)
    }
}

impl<T: VertexMember> VertexMember for [T; 5] {
    open spec fn member_ty() -> VertexMemberTy {
        T::member_ty()
    }

    open spec fn array_size() -> nat {
        T::array_size() * 5
    }

    fn format() -> (r: (VertexMemberTy, usize)) {
        let (ty, sz) = <T as VertexMember>::format();
        (ty, sz * 5)
    }
}

impl<T: VertexMember> VertexMember for [T; 6] {
    open spec fn member_ty() -> VertexMemberTy {
        T::member_ty()
    }

    open spec fn array_size() -> nat {
        T::array_size() * 6
    }

    fn format() -> (r: (VertexMemberTy, usize)) {
        let (ty, sz) = <T as VertexMember>::format();
        (ty, sz * 6)
    }
}

impl<T: VertexMember> VertexMember for [T; 7] {
    open spec fn member_ty() -> VertexMemberTy {
        T::member_ty()
    }

    open spec fn array_size() -> nat {
        T::array_size() * 7
    }

    fn format() -> (r: (VertexMemberTy, usize)) {
        let (ty, sz) = <T as VertexMember>::format();
        (ty, sz * 7)
    }
}

impl<T: VertexMember> VertexMember for [T; 8] {
    open spec fn member_ty() -> VertexMemberTy {
        T::member_ty()
    }

    open spec fn array_size() -> nat {
        T::array_size() * 8
    }

    fn format() -> (r: (VertexMemberTy, usize)) {
        let (ty, sz) = <T as VertexMember>::format();
        (ty, sz * 8)
    }
}

impl<T: VertexMember> VertexMember for [T; 9] {
    open spec fn member_ty() -> VertexMemberTy {
        T::member_ty()
    }

    open spec fn array_size() -> nat {
        T::array_size() * 9
    }

    fn format() -> (r: (VertexMemberTy, usize)) {
        let (ty, sz) = <T as VertexMember>::format();
        (ty, sz * 9)
    }
}

impl<T: VertexMember> VertexMember for [T; 10] {
    open spec fn member_ty() -> VertexMemberTy {
        T::member_ty()
    }

    open spec fn array_size() -> nat {
        T::array_size() * 10
    }

    fn format() -> (r: (VertexMemberTy, usize)) {
        let (ty, sz) = <T as VertexMember>::format();
        (ty, sz * 10)
    }
}

impl<T: VertexMember> VertexMember for [T; 11] {
    open spec fn member_ty() -> VertexMemberTy {
        T::member_ty()
    }

    open spec fn array_size() -> nat {
        T::array_size() * 11
    }

    fn format() -> (r: (VertexMemberTy, usize)) {
        let (ty, sz) = <T as VertexMember>::format();
        (ty, sz * 11)
    }
}

impl<T: VertexMember> VertexMember for [T; 12] {
    open spec fn member_ty() -> VertexMemberTy {
        T::member_ty()
    }

    open spec fn array_size() -> nat {
        T::array_size() * 12
    }

    fn format() -> (r: (VertexMemberTy, usize)) {
        let (ty, sz) = <T as VertexMember>::format();
        (ty, sz * 12)
    }
}

impl<T: VertexMember> VertexMember for [T; 13] {
    open spec fn member_ty() -> VertexMemberTy {
        T::member_ty()
    }

    open spec fn array_size() -> nat {
        T::array_size() * 13
    }

    fn format() -> (r: (VertexMemberTy, usize)) {
        let (ty, sz) = <T as VertexMember>::format();
        (ty, sz * 13)
    }
}

impl<T: VertexMember> VertexMember for [T; 14] {
    open spec fn member_ty() -> VertexMemberTy {
        T::member_ty()
    }

    open spec fn array_size() -> nat {
        T::array_size() * 14
    }

    fn format() -> (r: (VertexMemberTy, usize)) {
        let (ty, sz) = <T as VertexMember>::format();
        (ty, sz * 14)
    }
}

impl<T: VertexMember> VertexMember for [T; 15] {
    open spec fn member_ty() -> VertexMemberTy {
        T::member_ty()
    }

    open spec fn array_size() -> nat {
        T::array_size() * 15
    }

    fn format() -> (r: (VertexMemberTy, usize)) {
        let (ty, sz) = <T as VertexMember>::format();
        (ty, sz * 15)
    }
}

impl<T: VertexMember> VertexMember for [T; 16] {
    open spec fn member_ty() -> VertexMemberTy {
        T::member_ty()
    }

    open spec fn array_size() -> nat {
        T::array_size() * 16
    }

    fn format() -> (r: (VertexMemberTy, usize)) {
        let (ty, sz) = <T as VertexMember>::format();
        (ty, sz * 16)
    }
}

impl<T: VertexMember> VertexMember for [T; 32] {
    open spec fn member_ty() -> VertexMemberTy {
        T::member_ty()
    }

    open spec fn array_size() -> nat {
        T::array_size() * 32
    }

    fn format() -> (r: (VertexMemberTy, usize)) {
        let (ty, sz) = <T as VertexMember>::format();
        (ty, sz * 32)
    }
}

impl<T: VertexMember> VertexMember for [T; 64] {
    open spec fn member_ty() -> VertexMemberTy {
        T::member_ty()
    }

    open spec fn array_size() -> nat {
        T::array_size() * 64
    }

    fn format() -> (r: (VertexMemberTy, usize)) {
        let (ty, sz) = <T as VertexMember>::format();
        (ty, sz * 64)
    }
}

} // verus!
