use storage_image::vertex::{VertexMember, VertexMemberTy};

#[test]
fn scalar_members() {
    assert_eq!(<i8 as VertexMember>::format(), (VertexMemberTy::I8, 1));
    assert_eq!(<u8 as VertexMember>::format(), (VertexMemberTy::U8, 1));
    assert_eq!(<i16 as VertexMember>::format(), (VertexMemberTy::I16, 1));
    assert_eq!(<u16 as VertexMember>::format(), (VertexMemberTy::U16, 1));
    assert_eq!(<i32 as VertexMember>::format(), (VertexMemberTy::I32, 1));
    assert_eq!(<u32 as VertexMember>::format(), (VertexMemberTy::U32, 1));
}

#[test]
fn tuple_members() {
    assert_eq!(<(u8,) as VertexMember>::format(), (VertexMemberTy::U8, 1));
    assert_eq!(<(i16, i16) as VertexMember>::format(), (VertexMemberTy::I16, 2));
    assert_eq!(<(u32, u32, u32) as VertexMember>::format(), (VertexMemberTy::U32, 3));
    assert_eq!(<(i8, i8, i8, i8) as VertexMember>::format(), (VertexMemberTy::I8, 4));
    assert_eq!(<((u8, u8), (u8, u8), (u8, u8)) as VertexMember>::format(), (VertexMemberTy::U8, 6));
}

#[test]
fn array_members() {
    assert_eq!(<[u16; 1] as VertexMember>::format(), (VertexMemberTy::U16, 1));
    assert_eq!(<[u16; 3] as VertexMember>::format(), (VertexMemberTy::U16, 3));
    assert_eq!(<[i32; 11] as VertexMember>::format(), (VertexMemberTy::I32, 11));
    assert_eq!(<[i32; 16] as VertexMember>::format(), (VertexMemberTy::I32, 16));
    assert_eq!(<[u8; 32] as VertexMember>::format(), (VertexMemberTy::U8, 32));
    assert_eq!(<[u8; 64] as VertexMember>::format(), (VertexMemberTy::U8, 64));
    assert_eq!(<[[i16; 3]; 4] as VertexMember>::format(), (VertexMemberTy::I16, 12));
    assert_eq!(<[(u32, u32); 64] as VertexMember>::format(), (VertexMemberTy::U32, 128));
}

#[test]
fn cgmath_members() {
    assert_eq!(<cgmath::Vector1<u32> as VertexMember>::format(), (VertexMemberTy::U32, 1));
    assert_eq!(<cgmath::Vector2<i16> as VertexMember>::format(), (VertexMemberTy::I16, 2));
    assert_eq!(<cgmath::Vector3<u8> as VertexMember>::format(), (VertexMemberTy::U8, 3));
    assert_eq!(<cgmath::Vector4<i32> as VertexMember>::format(), (VertexMemberTy::I32, 4));
    assert_eq!(<cgmath::Point1<u16> as VertexMember>::format(), (VertexMemberTy::U16, 1));
    assert_eq!(<cgmath::Point2<[i8; 2]> as VertexMember>::format(), (VertexMemberTy::I8, 4));
    assert_eq!(<cgmath::Point3<u32> as VertexMember>::format(), (VertexMemberTy::U32, 3));
}

#[test]
fn nalgebra_members() {
    assert_eq!(<nalgebra::Vector1<u8> as VertexMember>::format(), (VertexMemberTy::U8, 1));
    assert_eq!(<nalgebra::Vector2<i32> as VertexMember>::format(), (VertexMemberTy::I32, 2));
    assert_eq!(<nalgebra::Vector3<u16> as VertexMember>::format(), (VertexMemberTy::U16, 3));
    assert_eq!(<nalgebra::Vector4<i8> as VertexMember>::format(), (VertexMemberTy::I8, 4));
    assert_eq!(
        <[nalgebra::Vector3<u32>; 2] as VertexMember>::format(),
        (VertexMemberTy::U32, 6)
    );
}
