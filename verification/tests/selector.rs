use kristforge::error::KristforgeError;
use kristforge::selector::DeviceSelector;

fn refused(text: &str) -> bool {
    match DeviceSelector::from_str(text) {
        Err(KristforgeError::InvalidSelector(s)) => s == text,
        _ => false,
    }
}

fn pool() -> Vec<Vec<u64>> {
    vec![vec![10, 11], vec![], vec![20, 21, 22]]
}

#[test]
fn selector_all_in_either_case() {
    assert_eq!(DeviceSelector::from_str("a").unwrap(), DeviceSelector::All);
    assert_eq!(DeviceSelector::from_str("A").unwrap(), DeviceSelector::All);
}

#[test]
fn selector_platform() {
    assert_eq!(DeviceSelector::from_str("p3").unwrap(), DeviceSelector::Platform(3));
    assert_eq!(DeviceSelector::from_str("P3").unwrap(), DeviceSelector::Platform(3));
    assert_eq!(DeviceSelector::from_str("p0").unwrap(), DeviceSelector::Platform(0));
    assert_eq!(DeviceSelector::from_str("p007").unwrap(), DeviceSelector::Platform(7));
    assert_eq!(DeviceSelector::from_str("p1234").unwrap(), DeviceSelector::Platform(1234));
}

#[test]
fn selector_device() {
    assert_eq!(DeviceSelector::from_str("p2d5").unwrap(), DeviceSelector::Device(2, 5));
    assert_eq!(DeviceSelector::from_str("P2D5").unwrap(), DeviceSelector::Device(2, 5));
    assert_eq!(DeviceSelector::from_str("p10d203").unwrap(), DeviceSelector::Device(10, 203));
}

#[test]
fn selector_refused_with_its_text() {
    assert!(refused("x"));
    assert!(refused("p"));
    assert!(refused("pd"));
    assert!(refused(""));
    assert!(refused("aa"));
    assert!(refused("ap1"));
    assert!(refused("p1d"));
    assert!(refused("pd1"));
    assert!(refused("p1x"));
    assert!(refused("p1d2d3"));
    assert!(refused("p1d2 "));
    assert!(refused(" p1"));
    assert!(refused("p-1"));
    assert!(refused("p+1"));
    assert!(refused("d1"));
    assert!(refused("p\u{ff13}"));
}

#[test]
fn selector_number_too_large_is_refused() {
    assert!(refused("p99999999999999999999999999"));
    assert!(refused("p1d99999999999999999999999999"));
    assert!(refused("p99999999999999999999999999d1"));
    let largest = format!("p{}", usize::MAX);
    assert_eq!(DeviceSelector::from_str(&largest).unwrap(), DeviceSelector::Platform(usize::MAX));
    let digits = format!("{}", usize::MAX);
    let (head, tail) = digits.split_at(digits.len() - 1);
    let next: u32 = tail.parse::<u32>().unwrap() + 1;
    assert!(next <= 9);
    assert!(refused(&format!("p{}{}", head, next)));
}

#[test]
fn parse_bytes_agrees_with_from_str() {
    assert_eq!(DeviceSelector::parse_bytes(b"a"), Some(DeviceSelector::All));
    assert_eq!(DeviceSelector::parse_bytes(b"p12"), Some(DeviceSelector::Platform(12)));
    assert_eq!(DeviceSelector::parse_bytes(b"p1d2"), Some(DeviceSelector::Device(1, 2)));
    assert_eq!(DeviceSelector::parse_bytes(b"q"), None);
    assert_eq!(DeviceSelector::parse_bytes(&[112, 200]), None);
}

#[test]
fn select_devices_of_each_kind() {
    let pool = pool();
    assert_eq!(DeviceSelector::All.select_devices(&pool), vec![10, 11, 20, 21, 22]);
    assert_eq!(DeviceSelector::Platform(0).select_devices(&pool), vec![10, 11]);
    assert_eq!(DeviceSelector::Platform(1).select_devices(&pool), Vec::<u64>::new());
    assert_eq!(DeviceSelector::Platform(2).select_devices(&pool), vec![20, 21, 22]);
    assert_eq!(DeviceSelector::Device(2, 1).select_devices(&pool), vec![21]);
    assert_eq!(DeviceSelector::Device(0, 0).select_devices(&pool), vec![10]);
}

#[test]
fn select_devices_outside_the_pool() {
    let pool = pool();
    assert_eq!(DeviceSelector::Platform(3).select_devices(&pool), Vec::<u64>::new());
    assert_eq!(DeviceSelector::Device(3, 0).select_devices(&pool), Vec::<u64>::new());
    assert_eq!(DeviceSelector::Device(0, 2).select_devices(&pool), Vec::<u64>::new());
    assert_eq!(DeviceSelector::Device(1, 0).select_devices(&pool), Vec::<u64>::new());
    assert_eq!(DeviceSelector::All.select_devices(&Vec::new()), Vec::<u64>::new());
}

#[test]
fn select_all_with_overlap_lists_each_device_once() {
    let pool = pool();
    let all = DeviceSelector::select_all(&vec![DeviceSelector::All], &pool);
    let both =
        DeviceSelector::select_all(&vec![DeviceSelector::All, DeviceSelector::Platform(0)], &pool);
    assert_eq!(all, vec![10, 11, 20, 21, 22]);
    assert_eq!(both, all);
}

#[test]
fn select_all_keeps_the_order_of_first_mention() {
    let pool = pool();
    let picked = DeviceSelector::select_all(
        &vec![
            DeviceSelector::Device(2, 2),
            DeviceSelector::Platform(2),
            DeviceSelector::Device(0, 1),
            DeviceSelector::All,
        ],
        &pool,
    );
    assert_eq!(picked, vec![22, 20, 21, 11, 10]);
}

#[test]
fn select_all_without_selectors_selects_nothing() {
    assert_eq!(DeviceSelector::select_all(&Vec::new(), &pool()), Vec::<u64>::new());
}

#[test]
fn select_all_with_a_device_listed_twice_in_the_pool() {
    let pool: Vec<Vec<u64>> = vec![vec![1, 2], vec![2, 3]];
    assert_eq!(DeviceSelector::select_all(&vec![DeviceSelector::All], &pool), vec![1, 2, 3]);
}

#[test]
fn label_of_each_kind() {
    assert_eq!(DeviceSelector::All.label(), "a");
    assert_eq!(DeviceSelector::Platform(0).label(), "p0");
    assert_eq!(DeviceSelector::Platform(37).label(), "p37");
    assert_eq!(DeviceSelector::Device(2, 5).label(), "p2d5");
    assert_eq!(DeviceSelector::Device(10, 0).label(), "p10d0");
}

#[test]
fn label_is_read_back_as_the_selector() {
    let selectors = [
        DeviceSelector::All,
        DeviceSelector::Platform(0),
        DeviceSelector::Platform(usize::MAX),
        DeviceSelector::Device(0, 0),
        DeviceSelector::Device(12, 345),
        DeviceSelector::Device(usize::MAX, usize::MAX),
    ];
    for sel in selectors {
        assert_eq!(DeviceSelector::from_str(&sel.label()).unwrap(), sel);
    }
}
