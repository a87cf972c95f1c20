use csf_retarget::color_space::ColorDispatch;
use csf_retarget::csf::Csf;
use csf_retarget::error::PipelineError;
use csf_retarget::fft::{Dispatch, Domain, ImgInfo, InternalFormat, MAX_DIMENSION};
use csf_retarget::perception_adapter::Strategy;
use csf_retarget::plane::{Plane, WorkGroups};
use csf_retarget::scalar::Scalar;
use csf_retarget::system::{Command, Source, System};

fn scalar(x: f32) -> Scalar {
    Scalar::from_bits(x.to_bits())
}

fn sample(csf: Csf, min: Scalar, max: Scalar, i: usize, points: usize) -> (Scalar, Scalar) {
    let a = f32::from_bits(csf.a.bits);
    let omega = f32::from_bits(csf.omega.bits);
    let sigma = f32::from_bits(csf.sigma.bits);
    let k = f32::from_bits(csf.k.bits);
    let min = f32::from_bits(min.bits);
    let max = f32::from_bits(max.bits);
    let norm = if points > 1 { i as f32 / (points - 1) as f32 } else { 0.0 };
    let f = norm * (max - min) + min;
    (scalar(f), scalar(a * ((-f / omega).exp() - k * (-(f / sigma).powi(2)).exp())))
}

fn default_csf() -> Csf {
    Csf { a: scalar(1.787), omega: scalar(7.22), sigma: scalar(2.2), k: scalar(0.71) }
}

fn split(groups: WorkGroups) -> Command {
    Command::ConvertColor { dispatch: ColorDispatch { mode: 0, work_groups: groups } }
}

fn merge(groups: WorkGroups) -> Command {
    Command::ConvertColor { dispatch: ColorDispatch { mode: 1, work_groups: groups } }
}

fn pass(stage: u32, work_groups: u32) -> Command {
    Command::Transform { pass: Dispatch { stage, work_groups } }
}

fn bins(groups: WorkGroups, current: f32, target: f32) -> Command {
    Command::AdaptBins {
        work_groups: groups,
        pixels_per_visual_degree: scalar(current),
        target_pixels_per_visual_degree: scalar(target),
    }
}

fn stages(commands: &[Command]) -> Vec<u32> {
    let mut out = Vec::new();
    for c in commands {
        if let Command::Transform { pass } = c {
            out.push(pass.stage);
        }
    }
    out
}

#[test]
fn system_starts_with_the_default_model() {
    let system = System::new();
    assert!(system.csf == default_csf());
    assert_eq!(f32::from_bits(system.csf.a.bits), 1.787);
    assert_eq!(f32::from_bits(system.csf.omega.bits), 7.22);
    assert_eq!(f32::from_bits(system.csf.sigma.bits), 2.2);
    assert_eq!(f32::from_bits(system.csf.k.bits), 0.71);
    assert!(system.adapt);
    assert_eq!(system.strategy, Strategy::FrequencyDomain);
    assert_eq!(system.intermediate, None);
    assert_eq!(system.fft.texture(), None);
}

#[test]
fn first_frame_allocates_and_runs_every_step_in_order() {
    let mut system = System::new();
    let frame = Plane::new(500, 300);
    let plan = system.draw(&frame, scalar(30.0), scalar(36.0), sample).unwrap();
    let info = ImgInfo::new(500, 300, &InternalFormat::FourComponents).unwrap();
    let image = WorkGroups { x: 8, y: 300, z: 1 };
    let spectrum = WorkGroups { x: 9, y: 512, z: 1 };
    let expected = vec![
        Command::AllocateIntermediate { plane: frame },
        Command::LoadFrame,
        Command::AllocatePlanes { info },
        Command::LoadPlanes,
        split(image),
        pass(0, 512),
        pass(1, 512),
        Command::UploadLut { csf: default_csf() },
        bins(spectrum, 30.0, 36.0),
        pass(2, 512),
        pass(3, 512),
        merge(image),
        Command::Present { source: Source::Original },
    ];
    assert_eq!(plan, expected);
    assert_eq!(system.intermediate, Some(frame));
    let texture = system.fft.texture().unwrap();
    assert_eq!(*texture.img_info(), info);
    assert_eq!(texture.domain(), Domain::Spatial);
    assert!(system.adapter.csf_upload.cached_csf() == default_csf());
    assert_eq!(system.adapter.csf_upload.lut().unwrap().lut_points.len(), 4096);
}

#[test]
fn second_frame_of_the_same_size_reuses_everything() {
    let mut system = System::new();
    let frame = Plane::new(1920, 1080);
    system.draw(&frame, scalar(30.0), scalar(36.0), sample).unwrap();
    let plan = system.draw(&frame, scalar(30.0), scalar(36.0), sample).unwrap();
    let image = WorkGroups { x: 31, y: 1080, z: 1 };
    let spectrum = WorkGroups { x: 33, y: 2048, z: 1 };
    let expected = vec![
        Command::LoadFrame,
        Command::LoadPlanes,
        split(image),
        pass(0, 2048),
        pass(1, 2048),
        bins(spectrum, 30.0, 36.0),
        pass(2, 2048),
        pass(3, 2048),
        merge(image),
        Command::Present { source: Source::Original },
    ];
    assert_eq!(plan, expected);
}

#[test]
fn changed_dimensions_replace_both_buffers() {
    let mut system = System::new();
    system.draw(&Plane::new(1920, 1080), scalar(30.0), scalar(36.0), sample).unwrap();
    let frame = Plane::new(1280, 720);
    let plan = system.draw(&frame, scalar(30.0), scalar(36.0), sample).unwrap();
    let info = ImgInfo::new(1280, 720, &InternalFormat::FourComponents).unwrap();
    assert_eq!(plan[0], Command::AllocateIntermediate { plane: frame });
    assert_eq!(plan[1], Command::LoadFrame);
    assert_eq!(plan[2], Command::AllocatePlanes { info });
    assert_eq!(plan[3], Command::LoadPlanes);
    assert_eq!(plan[5], pass(0, 2048));
    assert_eq!(plan[6], pass(1, 1024));
    assert_eq!(plan[8], pass(2, 1024));
    assert_eq!(plan[9], pass(3, 2048));
    assert_eq!(plan.len(), 12);
}

#[test]
fn changed_parameters_upload_the_table_once() {
    let mut system = System::new();
    let frame = Plane::new(64, 64);
    let uploads = |plan: &[Command]| {
        plan.iter().filter(|c| matches!(c, Command::UploadLut { .. })).count()
    };
    assert_eq!(uploads(&system.draw(&frame, scalar(30.0), scalar(36.0), sample).unwrap()), 1);
    assert_eq!(uploads(&system.draw(&frame, scalar(30.0), scalar(36.0), sample).unwrap()), 0);
    system.csf.k = scalar(0.5);
    let plan = system.draw(&frame, scalar(30.0), scalar(36.0), sample).unwrap();
    assert_eq!(uploads(&plan), 1);
    assert!(plan.contains(&Command::UploadLut { csf: system.csf }));
    assert_eq!(uploads(&system.draw(&frame, scalar(30.0), scalar(36.0), sample).unwrap()), 0);
    assert_eq!(uploads(&system.draw(&frame, scalar(31.0), scalar(36.0), sample).unwrap()), 0);
}

#[test]
fn disabled_adaptation_presents_the_frame_as_it_came() {
    let mut system = System::new();
    system.adapt = false;
    let frame = Plane::new(500, 300);
    let plan = system.draw(&frame, scalar(30.0), scalar(36.0), sample).unwrap();
    assert_eq!(
        plan,
        vec![
            Command::AllocateIntermediate { plane: frame },
            Command::LoadFrame,
            Command::Present { source: Source::Intermediate },
        ]
    );
    assert_eq!(system.fft.texture(), None);
    let plan = system.draw(&frame, scalar(30.0), scalar(36.0), sample).unwrap();
    assert_eq!(plan, vec![Command::LoadFrame, Command::Present { source: Source::Intermediate }]);
}

#[test]
fn disabled_adaptation_accepts_any_dimensions_and_densities() {
    let mut system = System::new();
    system.adapt = false;
    let frame = Plane::new(u32::MAX, MAX_DIMENSION + 1);
    let plan = system.draw(&frame, scalar(0.0), scalar(f32::NAN), sample).unwrap();
    assert_eq!(plan.len(), 3);
    assert_eq!(system.intermediate, Some(frame));
}

#[test]
fn oversized_frame_is_refused_and_nothing_changes() {
    let mut system = System::new();
    system.draw(&Plane::new(64, 64), scalar(30.0), scalar(36.0), sample).unwrap();
    let intermediate = system.intermediate;
    let fft = system.fft;
    let cached = system.adapter.csf_upload.cached_csf();
    let r = system.draw(&Plane::new(MAX_DIMENSION + 1, 64), scalar(30.0), scalar(36.0), sample);
    assert_eq!(r, Err(PipelineError::ResourceError));
    assert_eq!(system.intermediate, intermediate);
    assert_eq!(system.fft, fft);
    assert!(system.adapter.csf_upload.cached_csf() == cached);
    let plan = system.draw(&Plane::new(64, 64), scalar(30.0), scalar(36.0), sample).unwrap();
    assert_eq!(plan[0], Command::LoadFrame);
    assert_eq!(plan[1], Command::LoadPlanes);
}

#[test]
fn largest_frame_is_accepted() {
    let mut system = System::new();
    let frame = Plane::new(MAX_DIMENSION, 1);
    let plan = system.draw(&frame, scalar(30.0), scalar(36.0), sample).unwrap();
    assert_eq!(stages(&plan), vec![0, 1, 2, 3]);
    assert_eq!(plan[5], pass(0, 0x4000_0000));
    assert_eq!(plan[6], pass(1, 1));
}

#[test]
fn equal_densities_leave_the_spectrum_alone() {
    let mut system = System::new();
    let frame = Plane::new(500, 300);
    let plan = system.draw(&frame, scalar(35.5), scalar(35.5), sample).unwrap();
    let image = WorkGroups { x: 8, y: 300, z: 1 };
    let info = ImgInfo::new(500, 300, &InternalFormat::FourComponents).unwrap();
    let expected = vec![
        Command::AllocateIntermediate { plane: frame },
        Command::LoadFrame,
        Command::AllocatePlanes { info },
        Command::LoadPlanes,
        split(image),
        pass(0, 512),
        pass(1, 512),
        Command::UploadLut { csf: default_csf() },
        pass(2, 512),
        pass(3, 512),
        merge(image),
        Command::Present { source: Source::Original },
    ];
    assert_eq!(plan, expected);
    assert!(system.adapter.csf_upload.cached_csf() == default_csf());
    assert_eq!(system.adapter.csf_upload.lut().unwrap().lut_points.len(), 4096);

    let again = system.draw(&frame, scalar(35.5), scalar(35.5), sample).unwrap();
    let expected = vec![
        Command::LoadFrame,
        Command::LoadPlanes,
        split(image),
        pass(0, 512),
        pass(1, 512),
        pass(2, 512),
        pass(3, 512),
        merge(image),
        Command::Present { source: Source::Original },
    ];
    assert_eq!(again, expected);
}

#[test]
fn draw_after_draw_with_the_same_parameters_uploads_nothing() {
    let evaluations = std::cell::Cell::new(0usize);
    let counting = |csf: Csf, min: Scalar, max: Scalar, i: usize, points: usize| {
        evaluations.set(evaluations.get() + 1);
        sample(csf, min, max, i, points)
    };
    let uploads = |plan: &[Command]| {
        plan.iter().filter(|c| matches!(c, Command::UploadLut { .. })).count()
    };
    let mut system = System::new();
    let frame = Plane::new(500, 300);
    let first = system.draw(&frame, scalar(35.5), scalar(35.5), &counting).unwrap();
    assert_eq!(uploads(&first), 1);
    assert_eq!(evaluations.get(), 4096);
    let second = system.draw(&frame, scalar(35.5), scalar(40.0), &counting).unwrap();
    assert_eq!(uploads(&second), 0);
    assert!(second.contains(&bins(WorkGroups { x: 9, y: 512, z: 1 }, 35.5, 40.0)));
    let third = system.draw(&frame, scalar(35.5), scalar(40.0), &counting).unwrap();
    assert_eq!(uploads(&third), 0);
    assert_eq!(evaluations.get(), 4096);
}

#[test]
fn reported_format_gives_the_number_of_channels() {
    let mut system = System::new();
    assert_eq!(system.format, InternalFormat::FourComponents);
    system.format = InternalFormat::ThreeComponents;
    let plan = system.draw(&Plane::new(500, 300), scalar(30.0), scalar(36.0), sample).unwrap();
    let info = ImgInfo::new(500, 300, &InternalFormat::ThreeComponents).unwrap();
    assert_eq!(info.no_of_channels, 3);
    assert_eq!(plan[2], Command::AllocatePlanes { info });
    assert_eq!(system.fft.texture().unwrap().img_info().no_of_channels, 3);
}

#[test]
fn spatial_strategy_scales_contrast_without_transform() {
    let mut system = System::new();
    system.strategy = Strategy::SpatialScale;
    let frame = Plane::new(500, 300);
    let plan = system.draw(&frame, scalar(30.0), scalar(36.0), sample).unwrap();
    let image = WorkGroups { x: 8, y: 300, z: 1 };
    let info = ImgInfo::new(500, 300, &InternalFormat::FourComponents).unwrap();
    let expected = vec![
        Command::AllocateIntermediate { plane: frame },
        Command::LoadFrame,
        Command::AllocatePlanes { info },
        Command::LoadPlanes,
        split(image),
        Command::ScaleContrast {
            work_groups: image,
            csf: default_csf(),
            pixels_per_visual_degree: scalar(30.0),
            target_pixels_per_visual_degree: scalar(36.0),
        },
        merge(image),
        Command::Present { source: Source::Original },
    ];
    assert_eq!(plan, expected);
    assert_eq!(stages(&plan), Vec::<u32>::new());
    assert_eq!(system.adapter.csf_upload.cached_csf().omega.bits, 0);
    assert!(system.adapter.csf_upload.lut().is_none());

    let same = system.draw(&frame, scalar(36.0), scalar(36.0), sample).unwrap();
    assert_eq!(
        same,
        vec![
            Command::LoadFrame,
            Command::LoadPlanes,
            split(image),
            merge(image),
            Command::Present { source: Source::Original },
        ]
    );
}

#[test]
fn strategies_can_be_switched_between_frames() {
    let mut system = System::new();
    let frame = Plane::new(64, 64);
    let a = system.draw(&frame, scalar(30.0), scalar(36.0), sample).unwrap();
    assert_eq!(stages(&a), vec![0, 1, 2, 3]);
    system.strategy = Strategy::SpatialScale;
    let b = system.draw(&frame, scalar(30.0), scalar(36.0), sample).unwrap();
    assert_eq!(stages(&b), Vec::<u32>::new());
    assert_eq!(b[0], Command::LoadFrame);
    assert_eq!(b[1], Command::LoadPlanes);
    system.strategy = Strategy::FrequencyDomain;
    let c = system.draw(&frame, scalar(30.0), scalar(36.0), sample).unwrap();
    assert_eq!(stages(&c), vec![0, 1, 2, 3]);
    assert_eq!(c.last(), Some(&Command::Present { source: Source::Original }));
}

#[test]
fn every_plan_ends_in_present() {
    let mut system = System::new();
    for (w, h, adapt) in [(1u32, 1u32, true), (500, 300, false), (500, 300, true), (0, 0, true)] {
        system.adapt = adapt;
        let plan = system.draw(&Plane::new(w, h), scalar(30.0), scalar(36.0), sample).unwrap();
        let source = if adapt { Source::Original } else { Source::Intermediate };
        assert_eq!(plan.last(), Some(&Command::Present { source }));
        let presents = plan.iter().filter(|c| matches!(c, Command::Present { .. })).count();
        assert_eq!(presents, 1);
    }
}

#[test]
fn try_draw_plans_like_draw_when_the_values_are_fit() {
    let mut checked = System::new();
    let mut plain = System::new();
    let frame = Plane::new(500, 300);
    let a = checked.try_draw(&frame, scalar(30.0), scalar(36.0), sample);
    let b = plain.draw(&frame, scalar(30.0), scalar(36.0), sample);
    assert_eq!(a, Some(b));
    assert_eq!(checked.intermediate, plain.intermediate);
    assert_eq!(checked.fft, plain.fft);
    let big = Plane::new(MAX_DIMENSION + 1, 2);
    assert_eq!(
        checked.try_draw(&big, scalar(30.0), scalar(36.0), sample),
        Some(Err(PipelineError::ResourceError))
    );
}

#[test]
fn try_draw_plans_nothing_for_degenerate_values() {
    let mut system = System::new();
    let frame = Plane::new(500, 300);
    assert!(system.ready(&scalar(30.0), &scalar(36.0)));
    assert!(!system.ready(&scalar(0.0), &scalar(36.0)));
    assert_eq!(system.try_draw(&frame, scalar(0.0), scalar(36.0), sample), None);
    assert_eq!(system.try_draw(&frame, scalar(30.0), scalar(-0.0), sample), None);
    assert_eq!(system.try_draw(&frame, scalar(f32::NAN), scalar(36.0), sample), None);
    assert_eq!(system.try_draw(&frame, scalar(30.0), scalar(f32::INFINITY), sample), None);
    system.csf.omega = scalar(0.0);
    assert_eq!(system.try_draw(&frame, scalar(30.0), scalar(36.0), sample), None);
    system.csf.omega = scalar(7.22);
    system.csf.sigma = scalar(0.0);
    assert_eq!(system.try_draw(&frame, scalar(30.0), scalar(36.0), sample), None);
    system.csf.sigma = scalar(f32::NAN);
    assert_eq!(system.try_draw(&frame, scalar(30.0), scalar(36.0), sample), None);
    assert_eq!(system.intermediate, None);
    assert_eq!(system.fft.texture(), None);

    system.adapt = false;
    assert!(system.ready(&scalar(0.0), &scalar(f32::NAN)));
    let plan = system.try_draw(&frame, scalar(0.0), scalar(f32::NAN), sample).unwrap().unwrap();
    assert_eq!(plan.len(), 3);
}

#[test]
fn table_is_sampled_once_per_change_of_parameters() {
    let evaluations = std::cell::Cell::new(0usize);
    let counting = |csf: Csf, min: Scalar, max: Scalar, i: usize, points: usize| {
        evaluations.set(evaluations.get() + 1);
        sample(csf, min, max, i, points)
    };
    let mut system = System::new();
    let frame = Plane::new(64, 64);
    system.draw(&frame, scalar(30.0), scalar(36.0), &counting).unwrap();
    assert_eq!(evaluations.get(), 4096);
    system.draw(&frame, scalar(30.0), scalar(36.0), &counting).unwrap();
    system.draw(&Plane::new(128, 64), scalar(31.0), scalar(36.0), &counting).unwrap();
    assert_eq!(evaluations.get(), 4096);
    system.csf.a = scalar(2.0);
    system.draw(&frame, scalar(30.0), scalar(36.0), &counting).unwrap();
    assert_eq!(evaluations.get(), 2 * 4096);
    system.draw(&frame, scalar(30.0), scalar(36.0), &counting).unwrap();
    assert_eq!(evaluations.get(), 2 * 4096);
    let held = system.adapter.csf_upload.lut().unwrap();
    assert_eq!(f32::from_bits(held.lut_points[0].1.bits), 2.0 * (1.0 - 0.71));
    system.adapt = false;
    system.csf.k = scalar(0.1);
    system.draw(&frame, scalar(30.0), scalar(36.0), &counting).unwrap();
    assert_eq!(evaluations.get(), 2 * 4096);
}
