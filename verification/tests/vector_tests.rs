use columnar::engine::{Engine, ListEntry, StructField, STANDARD_VECTOR_SIZE};
use columnar::error::VectorError;
use columnar::selection_vector::SelectionVector;
use columnar::value::IntoValue;
use columnar::vector::{ArrayVector, FlatVector, Inserter, ListVector, StructVector, Vector};

#[test]
fn fresh_vector_has_no_null_rows() {
    let mut e = Engine::new();
    let t = e.scalar_type();
    let v = FlatVector::allocate_new_vector_with_capacity(&mut e, t, 100);
    for row in 0..100u64 {
        assert!(!v.row_is_null(&e, row));
    }
    assert!(v.validity_slice(&e).is_none());
    v.destroy(&mut e);
}

#[test]
fn set_null_marks_one_row_and_is_idempotent() {
    let mut e = Engine::new();
    let t = e.scalar_type();
    let mut v = FlatVector::allocate_new_vector_with_capacity(&mut e, t, 130);
    v.set_null(&mut e, 65);
    assert!(v.row_is_null(&e, 65));
    for row in 0..130u64 {
        if row != 65 {
            assert!(!v.row_is_null(&e, row));
        }
    }
    // Marking the same row a second time changes nothing.
    let before: Vec<u64> = v.validity_slice(&e).unwrap().to_vec();
    v.set_null(&mut e, 65);
    let after: Vec<u64> = v.validity_slice(&e).unwrap().to_vec();
    assert_eq!(before, after);
    assert!(v.row_is_null(&e, 65));
    assert!(!v.row_is_null(&e, 64));
    assert!(!v.row_is_null(&e, 66));
}

#[test]
fn set_null_at_word_boundaries() {
    let mut e = Engine::new();
    let t = e.scalar_type();
    let mut v = FlatVector::allocate_new_vector_with_capacity(&mut e, t, 128);
    v.set_null(&mut e, 0);
    v.set_null(&mut e, 63);
    v.set_null(&mut e, 64);
    v.set_null(&mut e, 127);
    for row in 0..128u64 {
        let expected = row == 0 || row == 63 || row == 64 || row == 127;
        assert_eq!(v.row_is_null(&e, row), expected);
    }
}

#[test]
fn init_get_validity_slice_materializes_an_all_valid_bitmap() {
    let mut e = Engine::new();
    let t = e.scalar_type();
    let v = FlatVector::allocate_new_vector_with_capacity(&mut e, t, 70);
    let bits = v.init_get_validity_slice(&mut e);
    assert_eq!(bits.len(), 2);
    assert_eq!(bits[0], u64::MAX);
    assert_eq!(bits[1], u64::MAX);
    for row in 0..70u64 {
        assert!(!v.row_is_null(&e, row));
    }
}

#[test]
fn copy_writes_the_prefix() {
    let mut e = Engine::new();
    let t = e.scalar_type();
    let mut v = FlatVector::allocate_new_vector_with_capacity(&mut e, t, 4);
    assert_eq!(v.capacity(), 4);
    let r = v.copy(&mut e, &[10u64, 11, 12]);
    assert!(r.is_ok());
    assert_eq!(v.as_slice(&e), &[10u64, 11, 12, 0]);
    assert_eq!(v.as_slice_with_len(&e, 2), &[10u64, 11]);
}

#[test]
fn oversized_copy_fails_with_out_of_bounds_and_writes_nothing() {
    let mut e = Engine::new();
    let t = e.scalar_type();
    let mut v = FlatVector::allocate_new_vector_with_capacity(&mut e, t, 2);
    let r = v.copy(&mut e, &[1u64, 2, 3]);
    assert_eq!(r, Err(VectorError::OutOfBounds));
    // All or nothing: the buffer still holds its freshly zeroed content.
    assert_eq!(v.as_slice(&e), &[0u64, 0]);
}

#[test]
fn slicing_keeps_the_logical_type() {
    let mut e = Engine::new();
    let t = e.scalar_type();
    let mut v = FlatVector::allocate_new_vector_with_capacity(&mut e, t, 8);
    let original_type = v.logical_type(&e);
    let sel = SelectionVector::new_copy(&[0u32, 0, 3, 5]);
    let dict = v.slice(&mut e, 8, sel);
    assert_eq!(dict.logical_type(&e), original_type);
}

#[test]
fn set_dictionary_id_sticks() {
    let mut e = Engine::new();
    let t = e.scalar_type();
    let mut v = FlatVector::allocate_new_vector_with_capacity(&mut e, t, 4);
    v.set_dictionary_id(&mut e, String::from("batch-7-col-2"));
    let id = e.vectors[v.unowned_ptr()].dictionary_id.as_ref().unwrap();
    assert_eq!(id, "batch-7-col-2");
}

#[test]
fn list_round_trip_reports_length_and_contents() {
    let mut e = Engine::new();
    let elem = e.scalar_type();
    let lt = e.list_type(elem);
    let h = e.create_vector(lt, STANDARD_VECTOR_SIZE);
    let lv = ListVector::from_handle(&e, h);
    assert!(lv.is_empty(&e));
    let data: Vec<u64> = (0..50u64).map(|i| i * 7).collect();
    lv.set_child(&mut e, &data);
    assert_eq!(lv.len(&e), 50);
    assert!(!lv.is_empty(&e));
    let child = lv.child(&mut e, 50);
    assert_eq!(child.as_slice_with_len(&e, 50), data.as_slice());
}

#[test]
fn list_child_reservation_grows_and_never_shrinks() {
    let mut e = Engine::new();
    let elem = e.scalar_type();
    let lt = e.list_type(elem);
    let h = e.create_vector(lt, 16);
    let lv = ListVector::from_handle(&e, h);
    let mut child = lv.child(&mut e, 8);
    child.copy(&mut e, &[1u64, 2, 3, 4, 5, 6, 7, 8]).unwrap();
    // Reserving less than what is already there keeps the content.
    let child_again = lv.child(&mut e, 4);
    assert_eq!(child_again.as_slice_with_len(&e, 4), &[1u64, 2, 3, 4]);
    // Growing keeps the prefix and zeroes the new rows.
    let grown = lv.child(&mut e, 12);
    assert_eq!(grown.as_slice(&e), &[1u64, 2, 3, 4, 5, 6, 7, 8, 0, 0, 0, 0]);
}

#[test]
fn list_entries_read_back() {
    let mut e = Engine::new();
    let elem = e.scalar_type();
    let lt = e.list_type(elem);
    let h = e.create_vector(lt, 4);
    let mut lv = ListVector {
        entries: FlatVector::with_capacity(h, 4),
    };
    lv.set_entry(&mut e, 0, 0, 3);
    lv.set_entry(&mut e, 1, 3, 2);
    assert_eq!(e.entry_at(h, 0), ListEntry { offset: 0, length: 3 });
    assert_eq!(e.entry_at(h, 1), ListEntry { offset: 3, length: 2 });
    lv.set_len(&mut e, 5);
    assert_eq!(lv.len(&e), 5);
}

#[test]
fn list_set_null_marks_a_list_row() {
    let mut e = Engine::new();
    let elem = e.scalar_type();
    let lt = e.list_type(elem);
    let h = e.create_vector(lt, 4);
    let mut lv = ListVector {
        entries: FlatVector::with_capacity(h, 4),
    };
    lv.set_null(&mut e, 2);
    assert!(lv.entries.row_is_null(&e, 2));
    assert!(!lv.entries.row_is_null(&e, 1));
}

#[test]
fn array_vector_reports_size_and_round_trips() {
    let mut e = Engine::new();
    let elem = e.scalar_type();
    let at = e.array_type(elem, 3);
    let h = e.create_vector(at, 4);
    let av = ArrayVector::from_handle(h);
    assert_eq!(av.get_array_size(&e), 3);
    assert_eq!(av.logical_type(&e), e.get_column_type(h));
    // Two rows of three elements each.
    let data: Vec<u64> = vec![1, 2, 3, 4, 5, 6];
    av.set_child(&mut e, &data);
    let child = av.child(&mut e, 6);
    assert_eq!(child.as_slice(&e), data.as_slice());
}

#[test]
fn array_set_null_marks_a_row() {
    let mut e = Engine::new();
    let elem = e.scalar_type();
    let at = e.array_type(elem, 2);
    let h = e.create_vector(at, 4);
    let mut av = ArrayVector::from_handle(h);
    av.set_null(&mut e, 1);
    let fv = FlatVector::with_capacity(h, 4);
    assert!(fv.row_is_null(&e, 1));
    assert!(!fv.row_is_null(&e, 0));
}

#[test]
fn struct_vector_children_are_named_and_typed() {
    let mut e = Engine::new();
    let id_ty = e.scalar_type();
    let name_ty = e.blob_type();
    let st = e.struct_type(vec![
        StructField { name: String::from("id"), ty: id_ty },
        StructField { name: String::from("name"), ty: name_ty },
    ]);
    let h = e.create_vector(st, 4);
    let sv = StructVector::from_handle(h);
    assert_eq!(sv.num_children(&e), 2);
    assert_eq!(sv.child_name(&e, 0), "id");
    assert_eq!(sv.child_name(&e, 1), "name");
    assert_eq!(sv.logical_type(&e), st);

    let mut id_child = sv.child(&mut e, 0, 4);
    id_child.copy(&mut e, &[100u64, 200]).unwrap();
    assert_eq!(id_child.as_slice_with_len(&e, 2), &[100u64, 200]);

    let name_child = sv.child(&mut e, 1, 4);
    name_child.insert(&mut e, 0, "alpha");
    name_child.insert(&mut e, 1, &b"beta"[..]);
    assert_eq!(e.blob_at(name_child.unowned_ptr(), 0).as_slice(), b"alpha");
    assert_eq!(e.blob_at(name_child.unowned_ptr(), 1).as_slice(), b"beta");
}

#[test]
fn struct_set_null_marks_the_whole_row_at_this_level() {
    let mut e = Engine::new();
    let f = e.scalar_type();
    let st = e.struct_type(vec![StructField { name: String::from("x"), ty: f }]);
    let h = e.create_vector(st, 4);
    let mut sv = StructVector::from_handle(h);
    sv.set_null(&mut e, 3);
    let fv = FlatVector::with_capacity(h, 4);
    assert!(fv.row_is_null(&e, 3));
    assert!(!fv.row_is_null(&e, 2));
}

#[test]
fn nested_children_recurse_through_composite_types() {
    let mut e = Engine::new();
    let elem = e.scalar_type();
    let inner_list = e.list_type(elem);
    let inner_array = e.array_type(elem, 2);
    let inner_struct = e.struct_type(vec![StructField { name: String::from("v"), ty: elem }]);
    let st = e.struct_type(vec![
        StructField { name: String::from("l"), ty: inner_list },
        StructField { name: String::from("a"), ty: inner_array },
        StructField { name: String::from("s"), ty: inner_struct },
    ]);
    let h = e.create_vector(st, 4);
    let sv = StructVector::from_handle(h);
    let lv = sv.list_vector_child(&mut e, 0);
    lv.set_child(&mut e, &[9u64, 8, 7]);
    assert_eq!(lv.len(&e), 3);
    let av = sv.array_vector_child(&mut e, 1);
    assert_eq!(av.get_array_size(&e), 2);
    let inner = sv.struct_vector_child(&mut e, 2);
    assert_eq!(inner.num_children(&e), 1);
    assert_eq!(inner.child_name(&e, 0), "v");

    // Lists of structs and lists of arrays reach their children the same way.
    let list_of_struct = e.list_type(inner_struct);
    let h2 = e.create_vector(list_of_struct, 4);
    let lv2 = ListVector {
        entries: FlatVector::with_capacity(h2, 4),
    };
    let sc = lv2.struct_child(&mut e, 8);
    assert_eq!(sc.num_children(&e), 1);
    let list_of_array = e.list_type(inner_array);
    let h3 = e.create_vector(list_of_array, 4);
    let lv3 = ListVector {
        entries: FlatVector::with_capacity(h3, 4),
    };
    let ac = lv3.array_child(&mut e);
    assert_eq!(ac.get_array_size(&e), 2);
    let list_of_list = e.list_type(inner_list);
    let h4 = e.create_vector(list_of_list, 4);
    let lv4 = ListVector {
        entries: FlatVector::with_capacity(h4, 4),
    };
    let lc = lv4.list_child(&mut e);
    lc.set_child(&mut e, &[1u64]);
    assert_eq!(lc.len(&e), 1);
}

#[test]
fn assign_to_constant_collapses_capacity_to_one() {
    let mut e = Engine::new();
    let t = e.scalar_type();
    let mut v = FlatVector::allocate_new_vector_with_capacity(&mut e, t, 16);
    let value = 42i64.into_value();
    v.assign_to_constant(&mut e, &value);
    assert_eq!(v.capacity(), 1);
    assert_eq!(v.as_slice(&e), &[42u64]);
    assert!(!v.row_is_null(&e, 0));
    // The value was only read; it is still usable afterwards.
    assert_eq!(value.to_int64(), 42);
}

#[test]
fn assign_null_constant_marks_the_constant_row_null() {
    let mut e = Engine::new();
    let t = e.scalar_type();
    let mut v = FlatVector::allocate_new_vector_with_capacity(&mut e, t, 16);
    let value = columnar::value::Value::null();
    v.assign_to_constant(&mut e, &value);
    assert_eq!(v.capacity(), 1);
    assert!(v.row_is_null(&e, 0));
}

#[test]
fn reference_aliases_another_vectors_content() {
    let mut e = Engine::new();
    let t = e.scalar_type();
    let mut src = FlatVector::allocate_new_vector_with_capacity(&mut e, t, 3);
    src.copy(&mut e, &[5u64, 6, 7]).unwrap();
    let mut dst = FlatVector::allocate_new_vector_with_capacity(&mut e, t, 8);
    dst.reference(&mut e, &src);
    assert_eq!(dst.capacity(), 3);
    assert_eq!(dst.as_slice(&e), &[5u64, 6, 7]);
    src.destroy(&mut e);
    dst.destroy(&mut e);
}

#[test]
fn destroying_a_clone_leaves_the_owner_usable() {
    let mut e = Engine::new();
    let t = e.scalar_type();
    let mut v = FlatVector::allocate_new_vector_with_capacity(&mut e, t, 4);
    v.copy(&mut e, &[1u64, 2, 3, 4]).unwrap();
    let snapshot = e.vectors.len();
    let borrowed = v.clone();
    borrowed.destroy(&mut e);
    // The engine is untouched: the slot count is the same and the owner's
    // content still reads back.
    assert_eq!(e.vectors.len(), snapshot);
    assert_eq!(v.as_slice(&e), &[1u64, 2, 3, 4]);
    // Views wrapped around borrowed handles behave the same way.
    let wrapped = FlatVector::with_capacity(v.unowned_ptr(), 4);
    wrapped.destroy(&mut e);
    assert_eq!(v.as_slice(&e), &[1u64, 2, 3, 4]);
    v.destroy(&mut e);
}

#[test]
fn the_closed_union_dispatches_by_kind() {
    let mut e = Engine::new();
    let t = e.scalar_type();
    let v = FlatVector::allocate_new_vector_with_capacity(&mut e, t, 4);
    let handle = v.unowned_ptr();
    let vector = Vector::Flat(v);
    assert!(vector.as_flat().is_some());
    assert!(vector.as_list().is_none());
    assert!(vector.as_array().is_none());
    assert!(vector.as_struct().is_none());
    assert!(vector.as_dictionary().is_none());
    assert_eq!(vector.as_flat().unwrap().unowned_ptr(), handle);
}
