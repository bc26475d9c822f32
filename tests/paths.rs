use mafia2_injector::paths::{registry_value_bytes, steam_game_path};

#[test]
fn registry_value_drops_terminator() {
    let mut buffer = [0u8; 16];
    buffer[..6].copy_from_slice(b"C:\\g\\\0");
    assert_eq!(registry_value_bytes(&buffer, 6), Some(b"C:\\g\\".to_vec()));
    assert_eq!(registry_value_bytes(&buffer, 0), None);
    assert_eq!(registry_value_bytes(&buffer, 17), None);
    assert_eq!(registry_value_bytes(&buffer, 1), Some(Vec::new()));
}

#[test]
fn steam_path_is_joined() {
    assert_eq!(
        steam_game_path("c:/program files (x86)/steam"),
        "c:/program files (x86)/steam\\steamapps\\common\\Mafia II Definitive Edition\\pc\\Mafia II Definitive Edition.exe"
    );
    assert_eq!(
        steam_game_path("D:\\Steam\\"),
        "D:\\Steam\\steamapps\\common\\Mafia II Definitive Edition\\pc\\Mafia II Definitive Edition.exe"
    );
}
