use castle::model::Activity;
use castle::model::AppState;
use castle::model::Coordinates;
use castle::model::GridSize;
use castle::model::Phase;
use castle::model::Player;
use castle::model::Seed;
use castle::model::Settings;
use castle::model::WorldPosition;

#[test]
fn players_alternate() {
    assert_eq!(Player::One.next(), Player::Two);
    assert_eq!(Player::Two.next(), Player::One);
    assert_eq!(Player::default(), Player::One);
}

#[test]
fn phases_cycle_through_both_players() {
    let mut phase = Phase::default();
    assert_eq!(phase, Phase::Fortify(Player::One));
    let expected = [
        Phase::Arm(Player::One),
        Phase::Fortify(Player::Two),
        Phase::Arm(Player::Two),
        Phase::Target(Player::One),
        Phase::Target(Player::Two),
        Phase::Fortify(Player::One),
    ];
    for step in expected {
        phase = phase.next();
        assert_eq!(phase, step);
    }
}

#[test]
fn phase_reports_its_player() {
    assert_eq!(Phase::Fortify(Player::Two).player(), Player::Two);
    assert_eq!(Phase::Arm(Player::One).player(), Player::One);
    assert_eq!(Phase::Target(Player::Two).player(), Player::Two);
}

#[test]
fn seeds_keep_their_value() {
    let seed: Seed<u32> = Seed::new(1234);
    assert_eq!(seed.value(), 1234);
    // A clock-derived seed is usable wherever a numeric one is.
    let _from_clock: Seed<u32> = Seed::system_time();
}

#[test]
fn default_settings_use_a_sixty_four_tile_grid() {
    let settings = Settings::default();
    assert_eq!(settings.size(), GridSize::new(64, 64));
    assert_eq!(settings.seed(), settings.seed);
}

#[test]
fn plain_value_types_construct_and_compare() {
    assert_eq!(Coordinates::new(1, -2), Coordinates { x: 1, y: -2 });
    assert_eq!(WorldPosition::new(1, 2, 3), WorldPosition { x: 1, y: 2, z: 3 });
    assert_eq!(Activity::default(), Activity::Observing);
    assert_eq!(AppState::default(), AppState::Menu);
}
