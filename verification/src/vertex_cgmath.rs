//! Vectors and points of `cgmath` as vertex members.

use crate::vertex::{VertexMember, VertexMemberTy};
use vstd::prelude::*;

verus! {

/// `cgmath::Vector1`: a vector of 1 component of one scalar type.
#[verifier::external_type_specification]
#[verifier::external_body]
#[verifier::reject_recursive_types(S)]
pub struct ExVector1<S>(cgmath::Vector1<S>);

impl<T: VertexMember> VertexMember for cgmath::Vector1<T> {
    open spec fn member_ty() -> VertexMemberTy {
        T::member_ty()
    }

    open spec fn array_size() -> nat {
        T::array_size()
    }

    fn format() -> (r: (VertexMemberTy, usize)) {
        <T as VertexMember>::format()
    }
}

/// `cgmath::Vector2`: a vector of 2 components of one scalar type.
#[verifier::external_type_specification]
#[verifier::external_body]
#[verifier::reject_recursive_types(S)]
pub struct ExVector2<S>(cgmath::Vector2<S>);

impl<T: VertexMember> VertexMember for cgmath::Vector2<T> {
    open spec fn member_ty() -> VertexMemberTy {
        T::member_ty()
    }

    open spec fn array_size() -> nat {
        T::array_size() * 2
    }

    fn format() -> (r: (VertexMemberTy, usize)) {
        let (ty, sz) = <T as VertexMember>::format();
        (ty, sz * 2)
    }
}

/// `cgmath::Vector3`: a vector of 3 components of one scalar type.
#[verifier::external_type_specification]
#[verifier::external_body]
#[verifier::reject_recursive_types(S)]
pub struct ExVector3<S>(cgmath::Vector3<S>);

impl<T: VertexMember> VertexMember for cgmath::Vector3<T> {
    open spec fn member_ty() -> VertexMemberTy {
        T::member_ty()
    }

    open spec fn array_size() -> nat {
        T::array_size() * 3
    }

    fn format() -> (r: (VertexMemberTy, usize)) {
        let (ty, sz) = <T as VertexMember>::format();
        (ty, sz * 3)
    }
}

/// `cgmath::Vector4`: a vector of 4 components of one scalar type.
#[verifier::external_type_specification]
#[verifier::external_body]
#[verifier::reject_recursive_types(S)]
pub struct ExVector4<S>(cgmath::Vector4<S>);

impl<T: VertexMember> VertexMember for cgmath::Vector4<T> {
    open spec fn member_ty() -> VertexMemberTy {
        T::member_ty()
    }

    open spec fn array_size() -> nat {
        T::array_size() * 4
    }

    fn format() -> (r: (VertexMemberTy, usize)) {
        let (ty, sz) = <T as VertexMember>::format();
        (ty, sz * 4)
    }
}

/// `cgmath::Point1`: a point of 1 component of one scalar type.
#[verifier::external_type_specification]
#[verifier::external_body]
#[verifier::reject_recursive_types(S)]
pub struct ExPoint1<S>(cgmath::Point1<S>);

impl<T: VertexMember> VertexMember for cgmath::Point1<T> {
    open spec fn member_ty() -> VertexMemberTy {
        T::member_ty()
    }

    open spec fn array_size() -> nat {
        T::array_size()
    }

    fn format() -> (r: (VertexMemberTy, usize)) {
        <T as VertexMember>::format()
    }
}

/// `cgmath::Point2`: a point of 2 components of one scalar type.
#[verifier::external_type_specification]
#[verifier::external_body]
#[verifier::reject_recursive_types(S)]
pub struct ExPoint2<S>(cgmath::Point2<S>);

impl<T: VertexMember> VertexMember for cgmath::Point2<T> {
    open spec fn member_ty() -> VertexMemberTy {
        T::member_ty()
    }

    open spec fn array_size() -> nat {
        T::array_size() * 2
    }

    fn format() -> (r: (VertexMemberTy, usize)) {
        let (ty, sz) = <T as VertexMember>::format();
        (ty, sz * 2)
    }
}

/// `cgmath::Point3`: a point of 3 components of one scalar type.
#[verifier::external_type_specification]
#[verifier::external_body]
#[verifier::reject_recursive_types(S)]
pub struct ExPoint3<S>(cgmath::Point3<S>);

impl<T: VertexMember> VertexMember for cgmath::Point3<T> {
    open spec fn member_ty() -> VertexMemberTy {
        T::member_ty()
    }

    open spec fn array_size() -> nat {
        T::array_size() * 3
    }

    fn format() -> (r: (VertexMemberTy, usize)) {
        let (ty, sz) = <T as VertexMember>::format();
        (ty, sz * 3)
    }
}

} // verus!
