use steam_errors::{is_known_failure_code, SteamError, SUCCESS_CODE};

fn failure_code_table() -> Vec<(i32, SteamError)> {
    vec![
        (2, SteamError::Generic),
        (3, SteamError::NoConnection),
        (5, SteamError::InvalidPassword),
        (6, SteamError::LoggedInElsewhere),
        (7, SteamError::InvalidProtocolVersion),
        (8, SteamError::InvalidParameter),
        (9, SteamError::FileNotFound),
        (10, SteamError::Busy),
        (11, SteamError::InvalidState),
        (12, SteamError::InvalidName),
        (13, SteamError::InvalidEmail),
        (14, SteamError::DuplicateName),
        (15, SteamError::AccessDenied),
        (16, SteamError::Timeout),
        (17, SteamError::Banned),
        (18, SteamError::AccountNotFound),
        (19, SteamError::InvalidSteamID),
        (20, SteamError::ServiceUnavailable),
        (21, SteamError::NotLoggedOn),
        (22, SteamError::Pending),
        (23, SteamError::EncryptionFailure),
        (24, SteamError::InsufficientPrivilege),
        (25, SteamError::LimitExceeded),
        (26, SteamError::Revoked),
        (27, SteamError::Expired),
        (28, SteamError::AlreadyRedeemed),
        (29, SteamError::DuplicateRequest),
        (30, SteamError::AlreadyOwned),
        (31, SteamError::IPNotFound),
        (32, SteamError::PersistFailed),
        (33, SteamError::LockingFailed),
        (34, SteamError::LogonSessionReplaced),
        (35, SteamError::ConnectFailed),
        (36, SteamError::HandshakeFailed),
        (37, SteamError::IOFailure),
        (38, SteamError::RemoteDisconnect),
        (39, SteamError::ShoppingCartNotFound),
        (40, SteamError::Blocked),
        (41, SteamError::Ignored),
        (42, SteamError::NoMatch),
        (43, SteamError::AccountDisabled),
        (44, SteamError::ServiceReadOnly),
        (45, SteamError::AccountNotFeatured),
        (46, SteamError::AdministratorOK),
        (47, SteamError::ContentVersion),
        (48, SteamError::TryAnotherCM),
        (49, SteamError::PasswordRequiredToKickSession),
        (50, SteamError::AlreadyLoggedInElsewhere),
        (51, SteamError::Suspended),
        (52, SteamError::Cancelled),
        (53, SteamError::DataCorruption),
        (54, SteamError::DiskFull),
        (55, SteamError::RemoteCallFailed),
        (56, SteamError::PasswordUnset),
        (57, SteamError::ExternalAccountUnlinked),
        (58, SteamError::PSNTicketInvalid),
        (59, SteamError::ExternalAccountAlreadyLinked),
        (60, SteamError::RemoteFileConflict),
        (61, SteamError::IllegalPassword),
        (62, SteamError::SameAsPreviousValue),
        (63, SteamError::AccountLogonDenied),
        (64, SteamError::CannotUseOldPassword),
        (65, SteamError::InvalidLoginAuthCode),
        (66, SteamError::AccountLogonDeniedNoMail),
        (67, SteamError::HardwareNotCapableOfIPT),
        (68, SteamError::IPTInitError),
        (69, SteamError::ParentalControlRestricted),
        (70, SteamError::FacebookQueryError),
        (71, SteamError::ExpiredLoginAuthCode),
        (72, SteamError::IPLoginRestrictionFailed),
        (73, SteamError::AccountLockedDown),
        (74, SteamError::AccountLogonDeniedVerifiedEmailRequired),
        (75, SteamError::NoMatchingURL),
        (76, SteamError::BadResponse),
        (77, SteamError::RequirePasswordReEntry),
        (78, SteamError::ValueOutOfRange),
        (79, SteamError::UnexpectedError),
        (80, SteamError::Disabled),
        (81, SteamError::InvalidCEGSubmission),
        (82, SteamError::RestrictedDevice),
        (83, SteamError::RegionLocked),
        (84, SteamError::RateLimitExceeded),
        (85, SteamError::AccountLoginDeniedNeedTwoFactor),
        (86, SteamError::ItemDeleted),
        (87, SteamError::AccountLoginDeniedThrottle),
        (88, SteamError::TwoFactorCodeMismatch),
        (89, SteamError::TwoFactorActivationCodeMismatch),
        (90, SteamError::AccountAssociatedToMultiplePartners),
        (91, SteamError::NotModified),
        (92, SteamError::NoMobileDevice),
        (93, SteamError::TimeNotSynced),
        (94, SteamError::SmsCodeFailed),
        (95, SteamError::AccountLimitExceeded),
        (96, SteamError::AccountActivityLimitExceeded),
        (97, SteamError::PhoneActivityLimitExceeded),
        (98, SteamError::RefundToWallet),
        (99, SteamError::EmailSendFailure),
        (100, SteamError::NotSettled),
        (101, SteamError::NeedCaptcha),
        (102, SteamError::GSLTDenied),
        (103, SteamError::GSOwnerDenied),
        (104, SteamError::InvalidItemType),
        (105, SteamError::IPBanned),
        (106, SteamError::GSLTExpired),
        (107, SteamError::InsufficientFunds),
        (108, SteamError::TooManyPending),
        (109, SteamError::NoSiteLicensesFound),
        (110, SteamError::WGNetworkSendExceeded),
    ]
}

#[test]
fn maps_every_defined_failure_code() {
    for (code, expected) in failure_code_table() {
        assert_eq!(SteamError::from_external(code), expected);
    }
}

#[test]
fn maps_named_examples() {
    assert_eq!(SteamError::from_external(16), SteamError::Timeout);
    assert_eq!(SteamError::from_external(15), SteamError::AccessDenied);
    assert_eq!(SteamError::from_external(17), SteamError::Banned);
    assert_eq!(SteamError::from_external(2), SteamError::Generic);
    assert_eq!(SteamError::from_external(110), SteamError::WGNetworkSendExceeded);
}

#[test]
fn success_code_is_not_convertible() {
    assert_eq!(SUCCESS_CODE, 1);
    assert!(!is_known_failure_code(SUCCESS_CODE));
    assert_eq!(SteamError::try_from_external(SUCCESS_CODE), None);
}

#[test]
fn unknown_codes_are_not_convertible() {
    for code in [0, 4, 111, 200, -1, -110, i32::MIN, i32::MAX] {
        assert!(!is_known_failure_code(code));
        assert_eq!(SteamError::try_from_external(code), None);
    }
}

#[test]
fn try_from_external_agrees_with_table() {
    for (code, expected) in failure_code_table() {
        assert!(is_known_failure_code(code));
        assert_eq!(SteamError::try_from_external(code), Some(expected));
    }
}

#[test]
fn mapping_is_injective() {
    let table = failure_code_table();
    for (i, (code_a, err_a)) in table.iter().enumerate() {
        for (code_b, err_b) in table.iter().skip(i + 1) {
            assert_ne!(code_a, code_b);
            assert_ne!(err_a, err_b);
        }
    }
}
