use geohash::{decode, encode, Coord};
use wallet_core::ecdsa::EcdsaPublicKey;
use wallet_core::ethereum_wallet::EthereumWallet;
use wallet_core::ipns::generate_ipns_id;
use wallet_core::registry::{get_token_id_by_geohash, update_geohash_to_token_id, Registry};
use wallet_core::state::{init_state, InitArg};

const EPSILON: f64 = 1e-6;
const STEP_METERS: f64 = 500.0;
const METERS_IN_DEGREE_LAT: f64 = 111320.0;
const GRID_SPACING: f64 = 0.03;

#[derive(Debug, Clone, Copy)]
struct Area {
    lat_start: f64,
    lon_start: f64,
    lat_end: f64,
    lon_end: f64,
}

/// The cell of the coarse grid that a location lies in.
fn calculate_area(lat: f64, lon: f64) -> Area {
    let lower_lat = (lat / GRID_SPACING).floor() * GRID_SPACING;
    let lower_lon = (lon / GRID_SPACING).floor() * GRID_SPACING;
    Area {
        lat_start: lower_lat,
        lon_start: lower_lon,
        lat_end: lower_lat + GRID_SPACING,
        lon_end: lower_lon + GRID_SPACING,
    }
}

/// The squares of 500 m within an area, each with its centre and geohash.
fn create_grid_with_geohash(area: Area) -> Vec<(f64, f64, String, Area)> {
    let step_lat = STEP_METERS / METERS_IN_DEGREE_LAT;
    let mut squares = Vec::new();
    let mut lat = area.lat_start;
    while lat <= area.lat_end {
        let step_lon = STEP_METERS / (METERS_IN_DEGREE_LAT * lat.to_radians().cos());
        let mut lon = area.lon_start;
        while lon <= area.lon_end {
            let center_lat = lat + step_lat / 2.0;
            let center_lon = lon + step_lon / 2.0;
            let key = encode(Coord { x: center_lon, y: center_lat }, 12).unwrap();
            let bounds = Area {
                lat_start: center_lat - step_lat / 2.0,
                lon_start: center_lon - step_lon / 2.0,
                lat_end: center_lat + step_lat / 2.0,
                lon_end: center_lon + step_lon / 2.0,
            };
            squares.push((center_lat, center_lon, key, bounds));
            lon += step_lon;
        }
        lat += step_lat;
    }
    squares
}

/// The square whose centre is nearest to a location.
fn find_nearest_geohash_with_bounds(lat: f64, lon: f64) -> (String, Area) {
    let mut nearest: Option<(f64, String, Area)> = None;
    for (center_lat, center_lon, key, bounds) in create_grid_with_geohash(calculate_area(lat, lon)) {
        let distance = ((center_lat - lat).powi(2) + (center_lon - lon).powi(2)).sqrt();
        if nearest.as_ref().map_or(true, |n| distance < n.0) {
            nearest = Some((distance, key, bounds));
        }
    }
    let (_, key, bounds) = nearest.unwrap();
    (key, bounds)
}

fn root_key() -> EcdsaPublicKey {
    let key = ic_secp256k1::PrivateKey::generate_from_seed(b"squares").public_key();
    EcdsaPublicKey::from_sec1(&key.serialize_sec1(true), &[0u8; 32]).unwrap()
}

fn test_consistent_geohash_within_square(base_lat: f64, base_lon: f64, square_number: usize) {
    let base_area = calculate_area(base_lat, base_lon);
    let (base_geohash, base_bounds) = find_nearest_geohash_with_bounds(base_lat, base_lon);
    assert_eq!(base_geohash.len(), 12);

    let mut state = init_state(InitArg { ethereum_network: None, ecdsa_key_name: None });
    state.set_ecdsa_public_key(root_key());
    let base_address =
        EthereumWallet::open(&mut state, base_geohash.as_bytes()).unwrap().ethereum_address();
    let mut registry = Registry::new();
    update_geohash_to_token_id(&mut registry, base_geohash.clone(), square_number as u64);

    let test_locations = vec![((base_lat, base_lon), 'A')];
    for ((lat, lon), letter) in test_locations {
        let calculated_area = calculate_area(lat, lon);
        let (returned_geohash, bounds) = find_nearest_geohash_with_bounds(lat, lon);
        println!("TEST_ test coordinate {}_{}: ({}, {})", square_number, letter, lat, lon);
        println!("TEST_ returned geohash for test coordinate {}_{}: {}", square_number, letter, returned_geohash);

        assert_eq!(returned_geohash, base_geohash, "Geohash for location {}_{} ({}, {}) did not match base geohash", square_number, letter, lat, lon);

        assert!((calculated_area.lat_start - base_area.lat_start).abs() < EPSILON, "lat_start mismatch for {}_{}", square_number, letter);
        assert!((calculated_area.lon_start - base_area.lon_start).abs() < EPSILON, "lon_start mismatch for {}_{}", square_number, letter);
        assert!((calculated_area.lat_end - base_area.lat_end).abs() < EPSILON, "lat_end mismatch for {}_{}", square_number, letter);
        assert!((calculated_area.lon_end - base_area.lon_end).abs() < EPSILON, "lon_end mismatch for {}_{}", square_number, letter);
        assert!((bounds.lat_start - base_bounds.lat_start).abs() < EPSILON, "lat_start mismatch for geohash {}_{}", square_number, letter);
        assert!((bounds.lon_start - base_bounds.lon_start).abs() < EPSILON, "lon_start mismatch for geohash {}_{}", square_number, letter);
        assert!((bounds.lat_end - base_bounds.lat_end).abs() < EPSILON, "lat_end mismatch for geohash {}_{}", square_number, letter);
        assert!((bounds.lon_end - base_bounds.lon_end).abs() < EPSILON, "lon_end mismatch for geohash {}_{}", square_number, letter);

        // The geohash names a point of the square, and the location lies in
        // the coarse cell that the square was cut from.
        let (center, _, _) = decode(&returned_geohash).unwrap();
        assert!(bounds.lat_start <= center.y && center.y <= bounds.lat_end);
        assert!(bounds.lon_start <= center.x && center.x <= bounds.lon_end);
        assert!(calculated_area.lat_start <= lat && lat <= calculated_area.lat_end);
        assert!(calculated_area.lon_start <= lon && lon <= calculated_area.lon_end);

        // The square is approximately 500 by 500 meters.
        let lat_step_size = bounds.lat_end - bounds.lat_start;
        let lon_step_size = bounds.lon_end - bounds.lon_start;
        let expected_step_degrees_lat = STEP_METERS / METERS_IN_DEGREE_LAT;
        let radians_lat = (lat * std::f64::consts::PI) / 180.0;
        let meters_in_degree_lon = METERS_IN_DEGREE_LAT * radians_lat.cos();
        let expected_step_degrees_lon = STEP_METERS / meters_in_degree_lon;
        assert!((lat_step_size - expected_step_degrees_lat).abs() < EPSILON, "latitude range mismatch for {}_{}", square_number, letter);
        assert!((lon_step_size - expected_step_degrees_lon).abs() < EPSILON, "longitude range mismatch for {}_{}", square_number, letter);

        // One square has one wallet, one published name and one token.
        let address =
            EthereumWallet::open(&mut state, returned_geohash.as_bytes()).unwrap().ethereum_address();
        assert_eq!(address.into_bytes(), base_address.into_bytes());
        assert_eq!(generate_ipns_id(&returned_geohash), generate_ipns_id(&base_geohash));
        assert_eq!(get_token_id_by_geohash(&registry, &returned_geohash), Some(square_number as u64));
    }
}

#[test]
fn test_consistent_geohash_within_square_1() {
    test_consistent_geohash_within_square(37.7749, -122.4194, 1);
}
