use memcard::error::CardError;

const TABLE: [(i32, CardError); 16] = [
    (0, CardError::Ready),
    (-1, CardError::Busy),
    (-2, CardError::WrongDevice),
    (-3, CardError::NoCard),
    (-4, CardError::NoFile),
    (-5, CardError::IoError),
    (-6, CardError::Broken),
    (-7, CardError::Exist),
    (-8, CardError::NoEnt),
    (-9, CardError::InsSpace),
    (-10, CardError::NoPerm),
    (-11, CardError::Limit),
    (-12, CardError::NameTooLong),
    (-13, CardError::Encoding),
    (-14, CardError::Canceled),
    (-128, CardError::FatalError),
];

#[test]
fn every_known_code_translates_to_its_error() {
    for (code, error) in TABLE {
        assert_eq!(CardError::from(code), error);
        assert_eq!(CardError::from_status(code), Some(error));
    }
}

#[test]
fn every_error_has_the_code_it_is_translated_from() {
    for (code, error) in TABLE {
        assert_eq!(error.code(), code);
        assert_eq!(CardError::from(error.code()), error);
        assert_eq!(CardError::from(code).code(), code);
    }
}

#[test]
fn no_two_codes_share_an_error() {
    for (a, _) in TABLE {
        for (b, _) in TABLE {
            if a != b {
                assert_ne!(CardError::from(a), CardError::from(b));
            }
        }
    }
}

#[test]
fn codes_outside_the_documented_set_have_no_error() {
    for code in [1, 2, 127, 128, -15, -16, -127, -129, i32::MAX, i32::MIN] {
        assert_eq!(CardError::from_status(code), None);
    }
}

#[test]
fn exactly_sixteen_codes_are_known() {
    let known = (-200..=200).filter(|code| CardError::from_status(*code).is_some()).count();
    assert_eq!(known, 16);
}

#[test]
fn only_ready_is_ready() {
    for (code, error) in TABLE {
        assert_eq!(error.is_ready(), code == 0);
    }
}
