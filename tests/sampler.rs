use mmlt::sampler::{MmltSampler, MutationType};

/// Draws the next coordinate the way a renderer would, with `fresh` for
/// new and caught-up values and `next` for the mutated value.
fn draw(sampler: &mut MmltSampler<f64>, fresh: f64, next: impl Fn(f64, u64) -> f64) -> f64 {
    sampler.coordinate_index().expect("index fits");
    while sampler.needs_coordinate() {
        sampler.extend(fresh);
    }
    if sampler.is_stale() {
        sampler.catch_up(fresh);
    }
    let value = next(sampler.current(), sampler.elapsed().expect("stamp not ahead"));
    sampler.commit(value);
    value
}

#[test]
fn streams_are_interleaved() {
    let mut sampler: MmltSampler<f64> = MmltSampler::new(3);
    sampler.start_stream(2);
    assert_eq!(sampler.coordinate_index(), Some(2));
    draw(&mut sampler, 0.1, |v, _| v);
    assert_eq!(sampler.coordinate_index(), Some(5));
    sampler.start_stream(1);
    assert_eq!(sampler.coordinate_index(), Some(1));
    draw(&mut sampler, 0.2, |v, _| v);
    assert_eq!(sampler.coordinate_index(), Some(4));
}

#[test]
fn reject_restores_drawn_coordinates() {
    let mut sampler: MmltSampler<f64> = MmltSampler::new(1);
    sampler.start_stream(0);
    draw(&mut sampler, 0.25, |v, _| v);
    draw(&mut sampler, 0.5, |v, _| v);
    sampler.mutate(MutationType::SmallStep);
    sampler.accept();
    assert_eq!(sampler.iteration(), 1);

    sampler.mutate(MutationType::SmallStep);
    sampler.start_stream(0);
    assert_eq!(draw(&mut sampler, 0.9, |v, _| v + 0.125), 0.375);
    assert_eq!(draw(&mut sampler, 0.9, |v, _| v + 0.125), 0.625);
    sampler.reject();

    assert_eq!(sampler.iteration(), 1);
    sampler.start_stream(0);
    assert_eq!(sampler.current(), 0.25);
    assert_eq!(sampler.elapsed(), Some(1));
    draw(&mut sampler, 0.9, |v, _| v);
    assert_eq!(sampler.current(), 0.5);
}

#[test]
fn accepted_large_step_sets_catch_up_point() {
    let mut sampler: MmltSampler<f64> = MmltSampler::new(1);
    sampler.start_stream(0);
    draw(&mut sampler, 0.25, |v, _| v);
    draw(&mut sampler, 0.5, |v, _| v);

    sampler.mutate(MutationType::LargeStep);
    assert_eq!(sampler.mutation_type(), MutationType::LargeStep);
    sampler.start_stream(0);
    draw(&mut sampler, 0.0, |_, _| 0.75);
    sampler.accept();
    assert_eq!(sampler.large_step_at(), 1);

    sampler.mutate(MutationType::SmallStep);
    sampler.start_stream(0);
    assert!(!sampler.is_stale());
    draw(&mut sampler, 0.0, |v, _| v);
    assert!(sampler.is_stale());
    sampler.catch_up(0.125);
    assert_eq!(sampler.current(), 0.125);
    assert_eq!(sampler.elapsed(), Some(1));
}

#[test]
fn small_step_acceptance_keeps_catch_up_point() {
    let mut sampler: MmltSampler<f64> = MmltSampler::new(2);
    sampler.mutate(MutationType::SmallStep);
    sampler.accept();
    assert_eq!(sampler.large_step_at(), 0);
    assert_eq!(sampler.stream_count(), 2);
}

#[test]
fn reject_rolls_back_new_coordinates_to_first_value() {
    let mut sampler: MmltSampler<f64> = MmltSampler::new(1);
    sampler.mutate(MutationType::LargeStep);
    sampler.start_stream(0);
    draw(&mut sampler, 0.3, |_, _| 0.8);
    sampler.reject();
    assert_eq!(sampler.iteration(), 0);
    sampler.start_stream(0);
    assert_eq!(sampler.current(), 0.3);
}
