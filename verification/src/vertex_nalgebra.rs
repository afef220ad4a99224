//! Column vectors of `nalgebra` as vertex members.

use crate::vertex::{VertexMember, VertexMemberTy};
use vstd::prelude::*;

verus! {

/// `nalgebra::Matrix`: a matrix of `R` rows and `C` columns over `T`, stored in `S`.
#[verifier::external_type_specification]
#[verifier::external_body]
#[verifier::reject_recursive_types(T)]
#[verifier::reject_recursive_types(R)]
#[verifier::reject_recursive_types(C)]
#[verifier::reject_recursive_types(S)]
pub struct ExMatrix<T, R, C, S>(nalgebra::Matrix<T, R, C, S>);

/// `nalgebra::Const`: a dimension known at compile time.
#[verifier::external_type_specification]
#[verifier::external_body]
pub struct ExConst<const R: usize>(nalgebra::Const<R>);

/// `nalgebra::ArrayStorage`: the components of a matrix in an array, column by column.
#[verifier::external_type_specification]
#[verifier::external_body]
#[verifier::reject_recursive_types(T)]
pub struct ExArrayStorage<T, const R: usize, const C: usize>(nalgebra::ArrayStorage<T, R, C>);

impl<T: VertexMember> VertexMember for nalgebra::Vector1<T> {
    open spec fn member_ty() -> VertexMemberTy {
        T::member_ty()
    }

    open spec fn array_size() -> nat {
        T::array_size()
    }

    fn format() -> (r: (VertexMemberTy, usize)) {
        <T as VertexMember>::format()
    }
}

impl<T: VertexMember> VertexMember for nalgebra::Vector2<T> {
    open spec fn member_ty() -> VertexMemberTy {
        T::member_ty()
    }

    open spec fn array_size() -> nat {
        T::array_size() * 2
    }

    fn format() -> (r: (VertexMemberTy, usize)) {
        let (ty, sz) = <T as VertexMember>::format();
        (ty, sz * 2)
    }
}

impl<T: VertexMember> VertexMember for nalgebra::Vector3<T> {
    open spec fn member_ty() -> VertexMemberTy {
        T::member_ty()
    }

    open spec fn array_size() -> nat {
        T::array_size() * 3
    }

    fn format() -> (r: (VertexMemberTy, usize)) {
        let (ty, sz) = <T as VertexMember>::format();
        (ty, sz * 3)
    }
}

impl<T: VertexMember> VertexMember for nalgebra::Vector4<T> {
    open spec fn member_ty() -> VertexMemberTy {
        T::member_ty()
    }

    open spec fn array_size() -> nat {
        T::array_size() * 4
    }

    fn format() -> (r: (VertexMemberTy, usize)) {
        let (ty, sz) = <T as VertexMember>::format();
        (ty, sz * 4)
    }
}

} // verus!
