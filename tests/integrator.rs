use mmlt::config::Config;
use mmlt::integrator::{MmltIntegrator, Schedule};

fn config(
    max_path_length: Option<usize>,
    initial: Option<u64>,
    average: Option<u64>,
) -> Config {
    Config {
        scene_path: String::from("s"),
        image_path: String::from("i"),
        max_path_length,
        initial_sample_count: initial,
        average_samples_per_pixel: average,
    }
}

#[test]
fn integrator_defaults() {
    let integrator = MmltIntegrator::new(&config(None, None, None));
    assert_eq!(integrator.max_path_length(), 20);
    assert_eq!(integrator.initial_sample_count(), 100_000);
    assert_eq!(integrator.average_samples_per_pixel(), 4096);
    assert_eq!(integrator.chain_count(), 19);
}

#[test]
fn integrator_takes_configured_values() {
    let integrator = MmltIntegrator::new(&config(Some(5), Some(10), Some(3)));
    assert_eq!(integrator.max_path_length(), 5);
    assert_eq!(integrator.initial_sample_count(), 10);
    assert_eq!(integrator.average_samples_per_pixel(), 3);
    assert_eq!(integrator.chain_count(), 4);
    assert_eq!(integrator.chain_path_length(0), 2);
    assert_eq!(integrator.chain_path_length(3), 5);
}

#[test]
fn integrator_without_chains() {
    assert_eq!(MmltIntegrator::new(&config(Some(1), None, None)).chain_count(), 0);
    assert_eq!(MmltIntegrator::new(&config(Some(0), None, None)).chain_count(), 0);
}

#[test]
fn schedule_runs_pixels_times_target() {
    let mut schedule = Schedule::new(4, 3);
    let mut count = 0;
    while schedule.next() {
        count += 1;
    }
    assert_eq!(count, 12);
    assert_eq!(schedule.iterations(), 12);
    assert_eq!(schedule.samples_per_pixel(), 3);
    assert!(!schedule.next());
}

#[test]
fn schedule_with_zero_target_runs_nothing() {
    let mut schedule = Schedule::new(10, 0);
    assert!(!schedule.next());
    assert_eq!(schedule.iterations(), 0);
}

#[test]
fn schedule_reports_each_whole_sample_once() {
    let mut schedule = Schedule::new(2, 3);
    let mut reports = Vec::new();
    while schedule.next() {
        if let Some(spp) = schedule.progress() {
            reports.push(spp);
        }
    }
    assert_eq!(reports, vec![1, 2, 3]);
}
