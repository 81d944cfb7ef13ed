use frameselect::feature::FeatureVector;
use frameselect::similarity::cosine;
use frameselect::extract::extract_feature;
use frameselect::raster::LumaPlane;

#[test]
fn cosine_of_vector_with_itself_is_one() {
    let v = FeatureVector::new(vec![3u8, 5, 7, 11]);
    let s = cosine(&v, &v);
    assert!(s.is_one());
    assert_eq!(s.num as u128 * s.num as u128, s.den as u128);
}

#[test]
fn cosine_of_uniform_vectors_is_one() {
    let a = FeatureVector::new(vec![10u8; 64]);
    let b = FeatureVector::new(vec![200u8; 64]);
    let s = cosine(&a, &b);
    assert!(s.is_one());
}

#[test]
fn cosine_zero_norm_scores_zero() {
    let z = FeatureVector::new(vec![0u8; 8]);
    let v = FeatureVector::new(vec![9u8; 8]);
    assert_eq!(cosine(&z, &v).num, 0);
    assert_eq!(cosine(&v, &z).num, 0);
    assert_eq!(cosine(&z, &v).den, 1);
}

#[test]
fn cosine_mismatched_length_scores_zero() {
    let a = FeatureVector::new(vec![9u8; 8]);
    let b = FeatureVector::new(vec![9u8; 4]);
    assert_eq!(cosine(&a, &b).num, 0);
    assert_eq!(cosine(&a, &b).den, 1);
}

#[test]
fn cosine_empty_scores_zero() {
    let e = FeatureVector::new(Vec::new());
    assert_eq!(cosine(&e, &e).num, 0);
    assert_eq!(cosine(&e, &e).den, 1);
}

#[test]
fn cosine_orthogonal_scores_zero_but_not_degenerate() {
    let a = FeatureVector::new(vec![1u8, 0]);
    let b = FeatureVector::new(vec![0u8, 1]);
    let s = cosine(&a, &b);
    assert_eq!(s.num, 0);
    assert_eq!(s.den, 1 * 1);
}

#[test]
fn score_comparison_orders_by_similarity() {
    let reference = FeatureVector::new(vec![100u8, 0]);
    let close = FeatureVector::new(vec![100u8, 10]);
    let far = FeatureVector::new(vec![10u8, 100]);
    let s_close = cosine(&reference, &close);
    let s_far = cosine(&reference, &far);
    assert!(s_far.le(&s_close));
    assert!(!s_close.le(&s_far));
}

#[test]
fn extract_uniform_plane_gives_uniform_levels() {
    let plane = LumaPlane { width: 16, height: 9, stride: 20, samples: vec![42u8; 20 * 9] };
    let f = extract_feature(&plane);
    assert_eq!(f.levels.len(), 4096);
    assert!(f.levels.iter().all(|&l| l == 42));
    assert_eq!(f.norm_sq, 4096 * 42 * 42);
}

#[test]
fn extract_is_resolution_invariant_on_uniform_planes() {
    let small = LumaPlane { width: 2, height: 2, stride: 2, samples: vec![7u8; 4] };
    let large = LumaPlane { width: 640, height: 360, stride: 640, samples: vec![7u8; 640 * 360] };
    let fs = extract_feature(&small);
    let fl = extract_feature(&large);
    assert_eq!(fs.levels, fl.levels);
}

#[test]
fn extract_distinguishes_halves() {
    let mut samples = vec![0u8; 64];
    for row in 4..8 {
        for col in 0..8 {
            samples[row * 8 + col] = 255;
        }
    }
    let plane = LumaPlane { width: 8, height: 8, stride: 8, samples };
    let f = extract_feature(&plane);
    assert_eq!(f.levels.len(), 4096);
    // top rows stay dark, bottom rows bright
    assert_eq!(f.levels[0], 0);
    assert_eq!(f.levels[4095], 255);
    assert!(f.norm_sq > 0);
}
