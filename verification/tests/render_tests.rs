use firesim::assets::ImageAsset;
use firesim::color::particle_color;
use firesim::fixed::SCALE;
use firesim::params::SimulationParams;
use firesim::particle::ParticleType;
use firesim::spawn::{ember_spawn_count, heat_spawn_count};

#[test]
fn fixed_kind_colors() {
    assert_eq!(particle_color(ParticleType::Fuel, 8 * SCALE), (100, 50, 0, 255));
    assert_eq!(particle_color(ParticleType::Ember, 3 * SCALE), (255, 200, 50, 255));
}

#[test]
fn heat_color_fades_with_size() {
    // A full-size flame is at the bright end of the ramp.
    assert_eq!(particle_color(ParticleType::Heat, 18 * SCALE), (255, 165, 0, 255));
    // A vanished flame sits at the dark end.
    assert_eq!(particle_color(ParticleType::Heat, 0), (200, 70, 0, 255));
    // Oversized flames are clamped to the bright end.
    assert_eq!(particle_color(ParticleType::Heat, 30 * SCALE), (255, 165, 0, 255));
    // Half size: ratio one half, truncated fixed-point steps.
    assert_eq!(particle_color(ParticleType::Heat, 9 * SCALE), (227, 117, 0, 255));
}

#[test]
fn smoke_alpha_thins_as_it_grows() {
    assert_eq!(particle_color(ParticleType::Smoke, 4 * SCALE), (100, 100, 100, 150));
    assert_eq!(particle_color(ParticleType::Smoke, 10 * SCALE), (100, 100, 100, 90));
    // Big puffs bottom out at the translucent floor.
    assert_eq!(particle_color(ParticleType::Smoke, 16 * SCALE), (100, 100, 100, 30));
    assert_eq!(particle_color(ParticleType::Smoke, 100 * SCALE), (100, 100, 100, 30));
}

#[test]
fn image_asset_accepts_only_matching_buffers() {
    let good = ImageAsset::from_rgba(2, 3, vec![0u8; 24]);
    assert!(good.is_some());
    let a = good.unwrap();
    assert_eq!(a.width, 2);
    assert_eq!(a.height, 3);
    assert_eq!(a.data.len(), 24);

    assert!(ImageAsset::from_rgba(2, 3, vec![0u8; 23]).is_none());
    assert!(ImageAsset::from_rgba(0, 3, vec![0u8; 1]).is_none());
    assert!(ImageAsset::from_rgba(0, 0, Vec::new()).is_some());
}

#[test]
fn fallback_asset_is_blank() {
    let a = ImageAsset::fallback(800, 600);
    assert_eq!(a.width, 800);
    assert_eq!(a.height, 600);
    assert!(a.data.is_empty());
}

#[test]
fn spawn_counts_match_the_policy() {
    let mut params = SimulationParams::default();
    assert_eq!(heat_spawn_count(&params), 5);
    assert_eq!(ember_spawn_count(&params), 1);

    params.fuel_amount = 5 * SCALE;
    assert_eq!(heat_spawn_count(&params), 1);

    params.fuel_amount = 1000 * SCALE;
    assert_eq!(heat_spawn_count(&params), 100);

    // Full sliders: (1000/100) * (300/50) * (100/100) * 5 = 300 embers.
    params.oxygen = 300 * SCALE;
    params.ember_amount = 100 * SCALE;
    assert_eq!(ember_spawn_count(&params), 300);
}
