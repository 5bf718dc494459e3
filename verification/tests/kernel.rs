use kde_kernel::density::Density;
use kde_kernel::error::DomainError;
use kde_kernel::kernel::{Kernel, Pdf, StandardNormal};
use kde_kernel::matrix::Matrix2;
use kde_kernel::point::{Interval, MaybeUniform};

fn evaluate(density: Density) -> f64 {
    let pi = std::f64::consts::PI;
    match density {
        Density::Gaussian { sq_dist, h } => {
            let h = h as f64;
            (-(sq_dist as f64) / (2.0 * h * h)).exp() / ((2.0 * pi).sqrt() * h)
        }
        Density::Flat { scale } => 1.0 / scale as f64,
        Density::Bivariate { quad, det } => {
            let det = det as f64;
            1.0 / (2.0 * pi) * det.powf(-0.5) * (-0.5 * (quad as f64 / det)).exp()
        }
    }
}

#[test]
fn normal_kernel_works() {
    let step: f64 = 20000.0;
    let h = Matrix2::new((800000000, 120000000), (120000000, 200000000));
    let data: [(f64, f64, f64); 10] = [
        (-0.05015484986718377, 4.631375826882106, 8.953059406467044e-12),
        (1.2847681232524142, 0.3286109201987051, 0.10821090618543903),
        (0.27153515732684674, -2.315645640123003, 0.0003667569844314917),
        (-0.27239977872185506, -3.250060892514204, 1.9911021543184804e-06),
        (-4.303898993114087, 1.6030807546462125, 6.279636452680284e-06),
        (-0.06626695931503779, -4.131631437662127, 1.300749775055857e-09),
        (1.3865878347895464, 0.22669870948548798, 0.10313021247790838),
        (3.5327025938459204, 2.5624858616925934, 7.863447318780707e-05),
        (-1.2145669102041778, -4.150551578012804, 3.51953904534754e-09),
        (0.04283185697010605, -4.575316215934372, 1.597977195830182e-11),
    ];
    for (x, y, pdf) in data.iter().cloned() {
        let on_grid = ((x * step).round() as i32, (y * step).round() as i32);
        let term = StandardNormal.density(&on_grid, &(0, 0), &h).unwrap();
        let value = evaluate(term) * step * step;
        assert!((value - pdf).abs() <= 1e-3 * pdf);
    }
}

#[test]
fn identity_bandwidth_gives_the_standard_normal() {
    let step: f64 = 20000.0;
    let h = Matrix2::new((400000000, 0), (0, 400000000));
    let data: [(f64, f64, f64); 10] = [
        (-0.05015484986718377, 4.631375826882106, 3.4957736565877873e-06),
        (1.2847681232524142, 0.3286109201987051, 0.06606050594956268),
        (0.27153515732684674, -2.315645640123003, 0.010505565626836763),
        (-0.27239977872185506, -3.250060892514204, 0.0007798368797643355),
        (-4.303898993114087, 1.6030807546462125, 4.182571576794482e-06),
        (-0.06626695931503779, -4.131631437662127, 3.11947143394824e-05),
        (1.3865878347895464, 0.22669870948548798, 0.05931541065253321),
        (3.5327025938459204, 2.5624858616925934, 1.1640295022816219e-05),
        (-1.2145669102041778, -4.150551578012804, 1.3825405819376266e-05),
        (0.04283185697010605, -4.575316215934372, 4.526536011799495e-06),
    ];
    for (x, y, pdf) in data.iter().cloned() {
        let on_grid = ((x * step).round() as i32, (y * step).round() as i32);
        let term = StandardNormal.density(&on_grid, &(0, 0), &h).unwrap();
        let value = evaluate(term) * step * step;
        assert!((value - pdf).abs() <= 1e-3 * pdf);
    }
}

#[test]
fn singular_bandwidth_is_refused() {
    let h = Matrix2::new((1, 1), (1, 1));
    assert_eq!(
        StandardNormal.density(&(3, 4), &(0, 0), &h),
        Err(DomainError::NotPositiveDefinite)
    );
}

#[test]
fn negative_determinant_is_refused() {
    let h = Matrix2::new((1, 2), (2, 1));
    assert_eq!(
        StandardNormal.density(&(3, 4), &(0, 0), &h),
        Err(DomainError::NotPositiveDefinite)
    );
}

#[test]
fn bivariate_kernel_closed_form() {
    let h = Matrix2::new((20, 3), (3, 5));
    assert_eq!(
        StandardNormal.density(&(3, 1), &(1, 2), &h),
        Ok(Density::Bivariate { quad: 52, det: 91 })
    );
}

#[test]
fn bivariate_kernel_is_symmetric() {
    let h = Matrix2::new((20, 3), (3, 5));
    assert_eq!(
        StandardNormal.density(&(3, 1), &(1, 2), &h),
        StandardNormal.density(&(1, 2), &(3, 1), &h)
    );
}

#[test]
fn bivariate_kernel_on_extreme_points_is_exact() {
    let h = Matrix2::new((1, 0), (0, 1));
    let far: i128 = 4294967295;
    assert_eq!(
        StandardNormal.density(&(i32::MAX, i32::MIN), &(i32::MIN, i32::MAX), &h),
        Ok(Density::Bivariate { quad: 2 * far * far, det: 1 })
    );
}

#[test]
fn scalar_kernel_closed_form() {
    assert_eq!(
        StandardNormal.density(&7, &3, &2),
        Ok(Density::Gaussian { sq_dist: 16, h: 2 })
    );
    assert_eq!(
        StandardNormal.density(&-5, &-5, &1),
        Ok(Density::Gaussian { sq_dist: 0, h: 1 })
    );
}

#[test]
fn scalar_kernel_on_extreme_points_is_exact() {
    assert_eq!(
        StandardNormal.density(&i32::MAX, &i32::MIN, &i32::MAX),
        Ok(Density::Gaussian { sq_dist: 18446744065119617025, h: i32::MAX })
    );
}

#[test]
fn scalar_kernel_is_symmetric() {
    for (x, xi, h) in [(7, 3, 2), (-4, 9, 1), (0, i32::MIN, 5), (12, 12, 3)] {
        assert_eq!(StandardNormal.density(&x, &xi, &h), StandardNormal.density(&xi, &x, &h));
    }
}

#[test]
fn scalar_kernel_refuses_non_positive_bandwidth() {
    assert_eq!(StandardNormal.density(&7, &3, &0), Err(DomainError::NonPositiveBandwidth));
    assert_eq!(StandardNormal.density(&7, &3, &-2), Err(DomainError::NonPositiveBandwidth));
}

#[test]
fn scalar_kernel_value() {
    let term = StandardNormal.density(&3, &1, &2).unwrap();
    let expected = (-0.5f64).exp() / (2.0 * (2.0 * std::f64::consts::PI).sqrt());
    assert!((evaluate(term) - expected).abs() < 1e-15);
    assert!((evaluate(term) - 0.12098536225957168).abs() < 1e-15);
}

#[test]
fn gaussian_terms_are_positive() {
    for (x, xi, h) in [(7, 3, 2), (-4, 9, 1), (0, 30, 5), (12, 12, 3)] {
        assert!(evaluate(StandardNormal.density(&x, &xi, &h).unwrap()) > 0.0);
    }
    let h = Matrix2::new((20, 3), (3, 5));
    assert!(evaluate(StandardNormal.density(&(3, 1), &(1, 2), &h).unwrap()) > 0.0);
}

#[test]
fn scalar_kernel_sums_to_one_over_the_grid() {
    for h in [20, 50, 125] {
        let mut total = 0.0;
        for x in -2000..=2000 {
            total += evaluate(StandardNormal.density(&x, &0, &h).unwrap());
        }
        assert!((total - 1.0).abs() < 1e-9);
    }
}

#[test]
fn sample_reference_gives_the_scalar_kernel() {
    for (x, xi, h) in [(7, 3, 2), (-4, 9, 1), (0, 30, 0), (12, 12, -3)] {
        assert_eq!(
            StandardNormal.density(&x, &MaybeUniform::Sample(xi), &h),
            StandardNormal.density(&x, &xi, &h)
        );
        assert_eq!(
            StandardNormal.density(&MaybeUniform::Sample(x), &MaybeUniform::Sample(xi), &h),
            StandardNormal.density(&x, &xi, &h)
        );
    }
}

#[test]
fn uniform_reference_gives_one_over_width_times_bandwidth() {
    let range = MaybeUniform::Uniform(Interval::new(-2, 8));
    assert_eq!(StandardNormal.density(&1, &range, &3), Ok(Density::Flat { scale: 30 }));
    assert_eq!(
        StandardNormal.density(&MaybeUniform::Sample(1), &range, &3),
        Ok(Density::Flat { scale: 30 })
    );
    assert_eq!(evaluate(Density::Flat { scale: 30 }), 1.0 / 30.0);
}

#[test]
fn uniform_reference_on_the_widest_interval_is_exact() {
    let range = MaybeUniform::Uniform(Interval::new(i32::MIN, i32::MAX));
    assert_eq!(
        StandardNormal.density(&0, &range, &i32::MAX),
        Ok(Density::Flat { scale: 9223372030412324865 })
    );
}

#[test]
fn uniform_reference_refuses_non_positive_width() {
    let empty = MaybeUniform::Uniform(Interval::new(4, 4));
    let backwards = MaybeUniform::Uniform(Interval::new(4, 1));
    assert_eq!(StandardNormal.density(&1, &empty, &3), Err(DomainError::NonPositiveWidth));
    assert_eq!(StandardNormal.density(&1, &backwards, &3), Err(DomainError::NonPositiveWidth));
    assert_eq!(
        StandardNormal.density(&MaybeUniform::Sample(1), &empty, &3),
        Err(DomainError::NonPositiveWidth)
    );
}

#[test]
fn uniform_reference_refuses_non_positive_bandwidth() {
    let range = MaybeUniform::Uniform(Interval::new(-2, 8));
    let empty = MaybeUniform::Uniform(Interval::new(4, 4));
    assert_eq!(StandardNormal.density(&1, &range, &0), Err(DomainError::NonPositiveBandwidth));
    assert_eq!(StandardNormal.density(&1, &empty, &-1), Err(DomainError::NonPositiveBandwidth));
}

#[test]
fn uniform_query_is_refused() {
    let query = MaybeUniform::Uniform(Interval::new(0, 10));
    let range = MaybeUniform::Uniform(Interval::new(-2, 8));
    assert_eq!(
        StandardNormal.density(&query, &MaybeUniform::Sample(3), &2),
        Err(DomainError::UniformQuery)
    );
    assert_eq!(StandardNormal.density(&query, &range, &2), Err(DomainError::UniformQuery));
    assert_eq!(StandardNormal.density(&query, &range, &0), Err(DomainError::UniformQuery));
}

#[test]
fn pdf_of_a_sample_is_the_standard_normal() {
    assert_eq!(StandardNormal.pdf(&3), Ok(Density::Gaussian { sq_dist: 9, h: 1 }));
    assert_eq!(
        StandardNormal.pdf(&MaybeUniform::Sample(-3)),
        Ok(Density::Gaussian { sq_dist: 9, h: 1 })
    );
    assert_eq!(
        StandardNormal.pdf(&i32::MIN),
        Ok(Density::Gaussian { sq_dist: 4611686018427387904, h: 1 })
    );
    let at_one = evaluate(StandardNormal.pdf(&1).unwrap());
    assert!((at_one - 0.24197072451914337).abs() < 1e-15);
}

#[test]
fn pdf_of_a_uniform_marker_is_one_over_width() {
    let range = MaybeUniform::Uniform(Interval::new(0, 4));
    assert_eq!(StandardNormal.pdf(&range), Ok(Density::Flat { scale: 4 }));
    assert_eq!(evaluate(Density::Flat { scale: 4 }), 0.25);
}

#[test]
fn pdf_of_an_empty_interval_is_refused() {
    let empty = MaybeUniform::Uniform(Interval::new(4, 4));
    let backwards = MaybeUniform::Uniform(Interval::new(4, -4));
    assert_eq!(StandardNormal.pdf(&empty), Err(DomainError::NonPositiveWidth));
    assert_eq!(StandardNormal.pdf(&backwards), Err(DomainError::NonPositiveWidth));
}

#[test]
fn pdf_in_the_plane_is_the_standard_normal() {
    assert_eq!(StandardNormal.pdf(&(1, -2)), Ok(Density::Bivariate { quad: 5, det: 1 }));
    let far: i128 = 2147483648;
    assert_eq!(
        StandardNormal.pdf(&(i32::MIN, i32::MIN)),
        Ok(Density::Bivariate { quad: 2 * far * far, det: 1 })
    );
    let value = evaluate(StandardNormal.pdf(&(1, 0)).unwrap());
    assert!((value - 0.09653235263005391).abs() < 1e-15);
}
