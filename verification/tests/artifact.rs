use eigencurve::{CodecError, Point2, ProcessedData, RankSelection, SVDEncoder, Scalar};

fn n(v: u32) -> Scalar {
    Scalar::from_bits(v)
}

fn p(x: u32, y: u32) -> Point2 {
    Point2 { x: n(x), y: n(y) }
}

fn raw(values: &[u32]) -> Vec<Scalar> {
    values.iter().map(|b| n(*b)).collect()
}

/// Two curves of two sample points, and a basis of three columns.
fn sound() -> ProcessedData {
    ProcessedData {
        curves: vec![vec![p(0, 0), p(1, 1)], vec![p(2, 2), p(3, 3)]],
        coefficients: vec![raw(&[1, 2, 3]), raw(&[4, 5, 6])],
        basis: vec![raw(&[1, 0, 0, 0]), raw(&[0, 1, 0, 0]), raw(&[0, 0, 1, 0])],
    }
}

fn encoder() -> SVDEncoder {
    SVDEncoder::train(sound().basis, &raw(&[3, 2, 1]), 2, RankSelection::Fixed(3)).unwrap()
}

#[test]
fn sound_data_is_accepted() {
    assert_eq!(sound().validate(), Ok(()));
}

#[test]
fn a_coefficient_vector_longer_than_the_basis_is_malformed() {
    let mut data = sound();
    data.coefficients[1] = raw(&[4, 5, 6, 7]);
    assert_eq!(data.validate(), Err(CodecError::MalformedArtifact));
}

#[test]
fn a_coefficient_vector_shorter_than_the_basis_is_malformed() {
    let mut data = sound();
    data.coefficients[0] = raw(&[1, 2]);
    assert_eq!(data.validate(), Err(CodecError::MalformedArtifact));
}

#[test]
fn a_missing_embedding_is_malformed() {
    let mut data = sound();
    data.coefficients.pop();
    assert_eq!(data.validate(), Err(CodecError::MalformedArtifact));
}

#[test]
fn curves_of_different_lengths_are_malformed() {
    let mut data = sound();
    data.curves[1].push(p(4, 4));
    assert_eq!(data.validate(), Err(CodecError::MalformedArtifact));
}

#[test]
fn a_basis_column_of_the_wrong_length_is_malformed() {
    let mut data = sound();
    data.basis[2] = raw(&[0, 0, 1]);
    assert_eq!(data.validate(), Err(CodecError::MalformedArtifact));
    let mut data = sound();
    data.basis[0] = raw(&[1, 0, 0, 0, 0, 0]);
    assert_eq!(data.validate(), Err(CodecError::MalformedArtifact));
}

#[test]
fn more_columns_than_coordinates_is_malformed() {
    let mut data = sound();
    data.basis.push(raw(&[0, 0, 0, 1]));
    data.basis.push(raw(&[1, 1, 1, 1]));
    data.coefficients = vec![raw(&[1, 2, 3, 4, 5]), raw(&[1, 2, 3, 4, 5])];
    assert_eq!(data.validate(), Err(CodecError::MalformedArtifact));
}

#[test]
fn curves_of_a_single_sample_are_malformed() {
    let data = ProcessedData {
        curves: vec![vec![p(0, 0)]],
        coefficients: vec![raw(&[1])],
        basis: vec![raw(&[1, 0])],
    };
    assert_eq!(data.validate(), Err(CodecError::MalformedArtifact));
}

#[test]
fn data_without_curves_is_judged_by_its_basis() {
    let data = ProcessedData {
        curves: Vec::new(),
        coefficients: Vec::new(),
        basis: vec![raw(&[1, 0, 0, 0])],
    };
    assert_eq!(data.validate(), Ok(()));
    let data = ProcessedData {
        curves: Vec::new(),
        coefficients: Vec::new(),
        basis: vec![raw(&[1, 0, 0])],
    };
    assert_eq!(data.validate(), Err(CodecError::MalformedArtifact));
    let data = ProcessedData {
        curves: Vec::new(),
        coefficients: Vec::new(),
        basis: vec![raw(&[1, 0, 0, 0]), raw(&[1, 0])],
    };
    assert_eq!(data.validate(), Err(CodecError::MalformedArtifact));
}

#[test]
fn empty_data_is_accepted() {
    let data = ProcessedData { curves: Vec::new(), coefficients: Vec::new(), basis: Vec::new() };
    assert_eq!(data.validate(), Ok(()));
}

#[test]
fn a_basis_without_columns_fits_embeddings_without_coefficients() {
    let data = ProcessedData {
        curves: vec![vec![p(0, 0), p(1, 1)]],
        coefficients: vec![Vec::new()],
        basis: Vec::new(),
    };
    assert_eq!(data.validate(), Ok(()));
}

#[test]
fn assembled_data_holds_the_parts_and_is_sound() {
    let data = ProcessedData::assemble(&encoder(), sound().curves, sound().coefficients).unwrap();
    assert_eq!(data.curves, sound().curves);
    assert_eq!(data.coefficients, sound().coefficients);
    assert_eq!(data.basis, sound().basis);
    assert_eq!(data.validate(), Ok(()));
}

#[test]
fn assembling_refuses_parts_that_do_not_belong_to_the_encoder() {
    let mut coefficients = sound().coefficients;
    coefficients[0].push(n(9));
    assert_eq!(
        ProcessedData::assemble(&encoder(), sound().curves, coefficients).unwrap_err(),
        CodecError::DimensionMismatch
    );
    let mut curves = sound().curves;
    curves[1].pop();
    assert_eq!(
        ProcessedData::assemble(&encoder(), curves, sound().coefficients).unwrap_err(),
        CodecError::DimensionMismatch
    );
    let mut curves = sound().curves;
    curves.pop();
    assert_eq!(
        ProcessedData::assemble(&encoder(), curves, sound().coefficients).unwrap_err(),
        CodecError::DimensionMismatch
    );
}
