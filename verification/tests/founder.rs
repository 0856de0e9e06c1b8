use treasury_router::engines::founder::calculate_progressive_request;
use treasury_router::pubkey::Pubkey;
use treasury_router::state::founder::FounderState;

#[test]
fn progressive_schedule_reduces_rate_with_volume() {

    let mut founder = FounderState {
        version: 1,
        protocol: Pubkey::default(),
        recipient: Pubkey::default(),
        period_cap: u64::MAX,
        earned_current_period: 0,
        lifetime_earned: 0,
        period_started_at: 0,
        period_duration: 31_536_000,
        current_tier: 0,
        enabled: true,
        bump: 0,
        reserved: [0;64],
    };


    let small =
        calculate_progressive_request(
            &mut founder,
            1_000_000,
            1000,
        )
        .unwrap();


    let large =
        calculate_progressive_request(
            &mut founder,
            200_000_000,
            1000,
        )
        .unwrap();


    assert!(small > 0);
    assert!(large > small);


    // Effective rate must decline as volume grows.
    let small_rate =
        small as f64 / 1_000_000f64;

    let large_rate =
        large as f64 / 200_000_000f64;


    assert!(large_rate < small_rate);
}


