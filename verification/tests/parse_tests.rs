use fluxcore_ng::column::is_na_string;
use fluxcore_ng::parse::is_uint_and_geq_100;

#[test]
fn accepts_valid_dimensions() {
    assert!(is_uint_and_geq_100("800".to_string()).is_ok());
    assert!(is_uint_and_geq_100("100".to_string()).is_ok());
    assert!(is_uint_and_geq_100("+200".to_string()).is_ok());
    assert!(is_uint_and_geq_100("4294967295".to_string()).is_ok());
}

#[test]
fn rejects_small_numbers_with_bound_message() {
    let e = is_uint_and_geq_100("99".to_string()).unwrap_err();
    assert_eq!(e, "Number has to be at least 100");
    let e = is_uint_and_geq_100("0".to_string()).unwrap_err();
    assert_eq!(e, "Number has to be at least 100");
}

#[test]
fn rejects_non_numbers_with_parse_message() {
    for s in ["", "+", "abc", "12a", "-100", "1.5", "99999999999"] {
        let e = is_uint_and_geq_100(s.to_string()).unwrap_err();
        assert_eq!(e, "Not a positive number");
    }
}

#[test]
fn recognises_missing_cell_markers() {
    for s in ["?", "na", "NA", "Na", "nA"] {
        assert!(is_na_string(&s.to_string()));
    }
    for s in ["", "n", "n/a", "nan", "x", "??", "0"] {
        assert!(!is_na_string(&s.to_string()));
    }
}
