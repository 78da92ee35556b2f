use vda5050_sim::schedule::{PublishDecision, PublishSchedule};

#[test]
fn state_goes_out_every_21_steps_at_one_hertz() {
    let mut s = PublishSchedule::new(1, 10);
    for step in 1..=42u32 {
        let d = s.step();
        assert_eq!(d.state, step % 21 == 0, "step {}", step);
        assert_eq!(d.visualization, step % 3 == 0, "step {}", step);
    }
    assert_eq!(s.state_counter, 0);
}

#[test]
fn high_frequency_goes_out_every_step() {
    let mut s = PublishSchedule::new(100, 25);
    assert_eq!(s.step(), PublishDecision { state: true, visualization: true });
    assert_eq!(s.state_counter, 0);
    assert_eq!(s.visualization_counter, 0);
}
