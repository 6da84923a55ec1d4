use vkrender::naming::{decimal_string, default_material_name, embedded_image_id, material_id};

#[test]
fn decimal_of_single_digits_and_larger_numbers() {
    assert_eq!(decimal_string(0), "0");
    assert_eq!(decimal_string(7), "7");
    assert_eq!(decimal_string(10), "10");
    assert_eq!(decimal_string(407), "407");
    assert_eq!(decimal_string(usize::MAX), format!("{}", usize::MAX));
}

#[test]
fn material_ids_follow_the_mesh_convention() {
    assert_eq!(material_id("venator", 0), "venator_mat_0");
    assert_eq!(material_id("ship", 12), "ship_mat_12");
    assert_eq!(material_id("", 3), "_mat_3");
    assert_ne!(material_id("m", 1), material_id("m", 11));
    assert_ne!(material_id("m", 0), material_id("m", 10));
}

#[test]
fn generated_names_for_images_and_materials() {
    assert_eq!(embedded_image_id(3), "embedded_image_3");
    assert_eq!(default_material_name(0), "material_0");
    assert_eq!(default_material_name(25), "material_25");
}
