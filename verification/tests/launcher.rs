use utopia_kernel::launcher::{exit_status, qemu_arguments, QEMU_PROGRAM};

#[test]
fn the_emulator_gets_the_image_as_a_raw_drive_and_serial_on_stdio() {
    assert_eq!(
        qemu_arguments("target/bios.img"),
        vec![
            String::from("-drive"),
            String::from("format=raw,file=target/bios.img"),
            String::from("-serial"),
            String::from("stdio"),
        ]
    );
}

#[test]
fn an_empty_image_path_still_gives_four_arguments() {
    assert_eq!(
        qemu_arguments(""),
        vec![
            String::from("-drive"),
            String::from("format=raw,file="),
            String::from("-serial"),
            String::from("stdio"),
        ]
    );
}

#[test]
fn the_launcher_leaves_with_zero_on_success_and_one_on_failure() {
    assert_eq!(exit_status(true), 0);
    assert_eq!(exit_status(false), 1);
}

#[test]
fn the_emulator_is_the_system_emulator_for_x86_64() {
    assert!(QEMU_PROGRAM.ends_with("qemu-system-x86_64.exe"));
}
