use rcli::password::{process_genpasswd, PasswordError};

const UPPER: &[u8] = b"ABCDEFGHJKLMNOPQRSTUVWXYZ";
const LOWER: &[u8] = b"abcdefghijklmnpqrstuvwxyz";
const NUMBER: &[u8] = b"123456789";
const SYMBOL: &[u8] = b"!@#$%^&*()_+-=[]{}|;:,.<>?/";

#[test]
fn password_has_every_chosen_class() {
    for _ in 0..20 {
        let pw = process_genpasswd(8, true, true, true, true).unwrap();
        assert_eq!(pw.len(), 8);
        let b = pw.as_bytes();
        assert!(b.iter().any(|c| UPPER.contains(c)));
        assert!(b.iter().any(|c| LOWER.contains(c)));
        assert!(b.iter().any(|c| NUMBER.contains(c)));
        assert!(b.iter().any(|c| SYMBOL.contains(c)));
    }
}

#[test]
fn password_stays_in_chosen_classes() {
    let pw = process_genpasswd(40, false, false, true, false).unwrap();
    assert_eq!(pw.len(), 40);
    assert!(pw.bytes().all(|c| NUMBER.contains(&c)));
    let pw = process_genpasswd(4, true, true, true, true).unwrap();
    assert_eq!(pw.len(), 4);
}

#[test]
fn password_errors() {
    assert_eq!(
        process_genpasswd(3, true, true, true, true),
        Err(PasswordError::TooShort)
    );
    assert_eq!(
        process_genpasswd(5, false, false, false, false),
        Err(PasswordError::NoCharacterClass)
    );
    assert_eq!(process_genpasswd(0, false, false, false, false), Ok(String::new()));
}
