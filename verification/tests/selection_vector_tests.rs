use columnar::error::VectorError;
use columnar::selection_vector::{IndexProducer, RangeProducer, SelectionVector};

#[test]
fn test_selection_vector() {
    let vec: SelectionVector = SelectionVector::from_sequence(RangeProducer::new(0, 2048)).unwrap();
    assert_eq!(vec.len(), 2048);
}

#[test]
fn test_large_selection_vector() {
    let vec: SelectionVector = SelectionVector::from_sequence(RangeProducer::new(0, 2049)).unwrap();
    assert_eq!(vec.len(), 2049);
}

#[test]
fn new_copy_keeps_length_and_contents() {
    for n in [0u32, 1, 2048, 2049] {
        let indices: Vec<u32> = (0..n).map(|i| i * 3).collect();
        let sv = SelectionVector::new_copy(&indices);
        assert_eq!(sv.len(), n as u64);
        for i in 0..n as usize {
            assert_eq!(sv.get(i), indices[i]);
        }
    }
}

#[test]
fn from_sequence_keeps_order() {
    let sv = SelectionVector::from_sequence(RangeProducer::new(5, 9)).unwrap();
    assert_eq!(sv.len(), 4);
    assert_eq!(sv.get(0), 5);
    assert_eq!(sv.get(1), 6);
    assert_eq!(sv.get(2), 7);
    assert_eq!(sv.get(3), 8);
}

#[test]
fn from_sequence_empty() {
    let sv = SelectionVector::from_sequence(RangeProducer::new(7, 7)).unwrap();
    assert_eq!(sv.len(), 0);
}

/// A producer whose size bounds are not an exact count.
struct InexactProducer(u32);

impl IndexProducer for InexactProducer {
    // `remaining` is specification-only; it is never called at run time.
    fn remaining(&self) -> vstd::prelude::Seq<u32> {
        panic!()
    }

    fn size_hint(&self) -> (usize, Option<usize>) {
        (0, None)
    }

    fn next(&mut self) -> Option<u32> {
        let v = self.0;
        self.0 += 1;
        if v < 12 {
            Some(v)
        } else {
            None
        }
    }
}

/// A producer that reports an exact count of 10 but yields 12 indices.
struct LyingProducer(u32);

impl IndexProducer for LyingProducer {
    // `remaining` is specification-only; it is never called at run time.
    fn remaining(&self) -> vstd::prelude::Seq<u32> {
        panic!()
    }

    fn size_hint(&self) -> (usize, Option<usize>) {
        (10, Some(10))
    }

    fn next(&mut self) -> Option<u32> {
        let v = self.0;
        self.0 += 1;
        if v < 12 {
            Some(v)
        } else {
            None
        }
    }
}

#[test]
fn inexact_count_is_rejected_before_any_write() {
    let r = SelectionVector::from_sequence(InexactProducer(0));
    assert!(matches!(r, Err(VectorError::InvalidArgument)));
}

#[test]
fn lying_count_is_caught_by_the_bounds_check() {
    let r = SelectionVector::from_sequence(LyingProducer(0));
    assert!(matches!(r, Err(VectorError::OutOfBounds)));
}
