use just_stop::device::find_device;
use just_stop::device::DeviceIndex;
use just_stop::device::DeviceInfo;

fn device(name: &str, index: u32) -> DeviceInfo {
    DeviceInfo { name: name.to_string(), index: DeviceIndex::Index(index) }
}

#[test]
fn a_listed_name_is_found_at_its_place() {
    let devices = vec![device("Cam A", 0), device("Cam B", 1), device("Cam C", 2)];
    assert_eq!(find_device(&devices, &"Cam A".to_string()), Some(0));
    assert_eq!(find_device(&devices, &"Cam B".to_string()), Some(1));
    assert_eq!(find_device(&devices, &"Cam C".to_string()), Some(2));
}

#[test]
fn a_name_that_is_not_listed_is_not_found() {
    let devices = vec![device("Cam A", 0), device("Cam B", 1)];
    assert_eq!(find_device(&devices, &"Cam".to_string()), None);
    assert_eq!(find_device(&devices, &"cam a".to_string()), None);
    assert_eq!(find_device(&devices, &String::new()), None);
    assert_eq!(find_device(&Vec::new(), &"Cam A".to_string()), None);
}

#[test]
fn of_equal_names_the_first_is_found() {
    let devices = vec![device("Cam A", 3), device("Twin", 9), device("Twin", 1)];
    assert_eq!(find_device(&devices, &"Twin".to_string()), Some(1));
}

#[test]
fn a_copy_of_a_device_equals_the_device() {
    let numbered = device("Cam A", 3);
    assert_eq!(numbered.clone(), numbered);
    let named = DeviceInfo { name: "Yard".to_string(), index: DeviceIndex::Name("rtsp://yard".to_string()) };
    assert_eq!(named.clone(), named);
    assert_ne!(named, numbered);
}
