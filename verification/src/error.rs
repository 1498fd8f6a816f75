//! The typed error values: one variant for each distinct failure condition
//! the external SDK can report, each with a fixed human-readable description.

use vstd::prelude::*;

verus! {

/// Errors that the Steamworks API can report.
///
/// The set is closed: each variant stands for exactly one external failure
/// condition (except `InitFailed`, which is raised locally when the API
/// fails to initialize and which no external code produces). No variant
/// carries payload data.
#[derive(Copy, Clone, Debug, PartialEq, Eq, Structural)]
pub enum SteamError {
    /// Returned if the steamworks API fails to initialize.
    InitFailed,
    /// Returned if the steamworks API fails to perform an action
    Generic,
    /// Returned when steam fails performing a network request
    NoConnection,
    /// Return when the password or ticked used is invalid
    InvalidPassword,
    /// Returned when the user is already logged in at another location
    LoggedInElsewhere,
    /// Returned when the protocol version is incorrect
    InvalidProtocolVersion,
    /// Returned when a passed parameter is invalid
    InvalidParameter,
    /// Returned when a file is not found
    FileNotFound,
    /// Returned when the called method was busy
    ///
    /// No action was performed
    Busy,
    /// Returned when the called object was in an
    /// invalid state
    InvalidState,
    /// Returned when the name is invalid
    InvalidName,
    /// Returned when the email is invalid
    InvalidEmail,
    /// Returned when the name is not unique
    DuplicateName,
    /// Returned when access is denied
    AccessDenied,
    /// Returned when the operation timed out
    Timeout,
    /// Returned when the user is VAC2 banned
    Banned,
    /// Returned when the account is not found
    AccountNotFound,
    /// Returned when the passed steam id is invalid
    InvalidSteamID,
    /// Returned when the requested service in unavailable
    ServiceUnavailable,
    /// Returned when the user is not logged on
    NotLoggedOn,
    /// Returned when the request is pending (e.g. in progress/waiting)
    Pending,
    /// Returned when encryption or decryption fails
    EncryptionFailure,
    /// Returned when you have insufficient privilege to perform
    /// the action
    InsufficientPrivilege,
    /// Returned when you have hit the API limits
    LimitExceeded,
    /// Returned when the user's access has been revoked (e.g. revoked
    /// guess passes)
    Revoked,
    /// Returned when the user's access has expired
    Expired,
    /// Returned when the licence/guest pass has already been redeemed
    AlreadyRedeemed,
    /// Returned when the requested action is a duplicate and has
    /// already occurred.
    ///
    /// The action will be ignored
    DuplicateRequest,
    /// Returned when all the games in the guest pass are already
    /// owned by the user
    AlreadyOwned,
    /// Returned when the ip address is not found
    IPNotFound,
    /// Returned when the change failed to write to the data store
    PersistFailed,
    /// Returned when the operation failed to acquire the access lock
    LockingFailed,
    /// Undocumented
    LogonSessionReplaced,
    /// Undocumented
    ConnectFailed,
    /// Undocumented
    HandshakeFailed,
    /// Undocumented
    IOFailure,
    /// Undocumented
    RemoteDisconnect,
    /// Returned when the requested shopping cart wasn't found
    ShoppingCartNotFound,
    /// Returned when the user blocks an action
    Blocked,
    /// Returned when the target user is ignoring the sender
    Ignored,
    /// Returned when nothing matching the request is found
    NoMatch,
    /// Undocumented
    AccountDisabled,
    /// Returned when the service isn't accepting content changes at
    /// this moment
    ServiceReadOnly,
    /// Returned when the account doesn't have value so the feature
    /// isn't available
    AccountNotFeatured,
    /// Allowed to take this action but only because the requester is
    /// an admin
    AdministratorOK,
    /// Returned when there is a version mismatch in content transmitted
    /// within the steam protocol
    ContentVersion,
    /// Returned when the current CM cannot service the user's request.
    ///
    /// The user should try another.
    TryAnotherCM,
    /// Returned when the user is already logged in elsewhere and the
    /// cached credential login failed.
    PasswordRequiredToKickSession,
    /// Returned when the user is already logged in elsewhere, you
    /// must wait before trying again
    AlreadyLoggedInElsewhere,
    /// Returned when a long running operation (e.g. download) is
    /// suspended/paused.
    Suspended,
    /// Returned when an operation is cancelled
    Cancelled,
    /// Returned when an operation is cancelled due to data corruption
    DataCorruption,
    /// Returned when an operation is cancelled due to running out of disk
    /// space
    DiskFull,
    /// Returned when a remote call or an IPC call failed
    RemoteCallFailed,
    /// Returned when a password could not be verified as its unset
    /// server side
    PasswordUnset,
    /// Returned when the external account is not linked to a steam
    /// account
    ExternalAccountUnlinked,
    /// Returned when the PSN ticket is invalid
    PSNTicketInvalid,
    /// Returned when the external account is already linked to a steam
    /// account
    ExternalAccountAlreadyLinked,
    /// Returned when sync cannot resume due to a file conflict
    RemoteFileConflict,
    /// Returned when the requested new password is not legal
    IllegalPassword,
    /// Returned when the new value is the same as the previous value
    SameAsPreviousValue,
    /// Returned when the account logon is denied to 2nd factor authentication
    /// failure
    AccountLogonDenied,
    /// Returned when the requested new password is the same as the
    /// previous password
    CannotUseOldPassword,
    /// Returned when logging in is denied due to an invalid auth code
    InvalidLoginAuthCode,
    /// Returned when logging in fails due to no email being set for 2nd
    /// factor authentication
    AccountLogonDeniedNoMail,
    /// Undocumented
    HardwareNotCapableOfIPT,
    /// Undocumented
    IPTInitError,
    /// Returned when a operation fails due to parental control restrictions
    /// for a user
    ParentalControlRestricted,
    /// Returned when a facebook query returns an error
    FacebookQueryError,
    /// Returned when account login is denied due to an expired auth code
    ExpiredLoginAuthCode,
    /// Undocumented
    IPLoginRestrictionFailed,
    /// Undocumented
    AccountLockedDown,
    /// Undocumented
    AccountLogonDeniedVerifiedEmailRequired,
    /// Undocumented
    NoMatchingURL,
    /// Returned when something fails to parse/has a missing field
    BadResponse,
    /// Returned when a user cannot complete the action until they
    /// re-enter their password
    RequirePasswordReEntry,
    /// Returned when an entered value is outside the acceptable range
    ValueOutOfRange,
    /// Returned when an error happens that the steamworks API didn't
    /// expect to happen
    UnexpectedError,
    /// Returned when the requested service is disabled
    Disabled,
    /// Returned when the set of files submitted to the CEG server
    /// are not valid
    InvalidCEGSubmission,
    /// Returned when the device being used is not allowed to perform
    /// this action
    RestrictedDevice,
    /// Returned when an action is prevented due to region restrictions
    RegionLocked,
    /// Returned when an action failed due to a temporary rate limit
    RateLimitExceeded,
    /// Returned when a account needs to use a two-factor code to login
    AccountLoginDeniedNeedTwoFactor,
    /// Returned when the item attempting to be accessed has been deleted
    ItemDeleted,
    /// Returned when the account login failed and you should throttle the
    /// response to the possible attacker
    AccountLoginDeniedThrottle,
    /// Returned when the two factor code provided mismatched the expected
    /// one
    TwoFactorCodeMismatch,
    /// Returned when the two factor activation code mismatched the expected
    /// one
    TwoFactorActivationCodeMismatch,
    /// Returned when the account has been associated with multiple partners
    AccountAssociatedToMultiplePartners,
    /// Returned when the data wasn't modified
    NotModified,
    /// Returned when the account doesn't have a mobile device associated with
    /// it
    NoMobileDevice,
    /// Returned when the current time is out of range or tolerance
    TimeNotSynced,
    /// Returned when the sms code failed to validate
    SmsCodeFailed,
    /// Returned when too many accounts are accessing the requested
    /// resource
    AccountLimitExceeded,
    /// Returned when there have been too many changes to the account
    AccountActivityLimitExceeded,
    /// Returned when there have been too many changes to the phone
    PhoneActivityLimitExceeded,
    /// Returned when the refund can not be sent to the payment method
    /// and the steam wallet must be used
    RefundToWallet,
    /// Returned when steam failed to send an email
    EmailSendFailure,
    /// Returned when an action cannot be performed until the payment
    /// has settled
    NotSettled,
    /// Returned when the user needs to provide a valid captcha
    NeedCaptcha,
    /// Returned when the game server login token owned by the token's owner
    /// been banned
    GSLTDenied,
    /// Returned when the game server owner has been denied for other reasons
    /// (account lock, community ban, vac ban, missing phone)
    GSOwnerDenied,
    /// Returned when the type of item attempted to be acted on is invalid
    InvalidItemType,
    /// Returned when the IP address has been banned for taking this action
    IPBanned,
    /// Returned when the game server login token has expired
    ///
    /// It can be reset for use
    GSLTExpired,
    /// Returned when the user does not have the wallet funds to complete
    /// the action
    InsufficientFunds,
    /// Returned when there are too many of the requested action pending
    /// already
    TooManyPending,
    /// Returned when there is no site licenses found
    NoSiteLicensesFound,
    /// Returned when WG could not send a response because it exceeded the
    /// max network send size
    WGNetworkSendExceeded,
}

impl SteamError {
    /// The fixed description of each variant, as a sequence of characters.
    pub open spec fn describe_spec(self) -> Seq<char> {
        match self {
            SteamError::InitFailed => "failed to init the steamworks API"@,
            SteamError::Generic => "a generic failure from the steamworks API"@,
            SteamError::NoConnection => "there isn't a network connection to steam or it failed to connect"@,
            SteamError::InvalidPassword => "password or ticket is invalid"@,
            SteamError::LoggedInElsewhere => "user logged in elsewhere"@,
            SteamError::InvalidProtocolVersion => "the protocol version is incorrect"@,
            SteamError::InvalidParameter => "a parameter is invalid"@,
            SteamError::FileNotFound => "a file was not found"@,
            SteamError::Busy => "method busy"@,
            SteamError::InvalidState => "object in invalid state"@,
            SteamError::InvalidName => "name is invalid"@,
            SteamError::InvalidEmail => "email is invalid"@,
            SteamError::DuplicateName => "name is not unique"@,
            SteamError::AccessDenied => "access denied"@,
            SteamError::Timeout => "operation timed out"@,
            SteamError::Banned => "VAC2 banned"@,
            SteamError::AccountNotFound => "account not found"@,
            SteamError::InvalidSteamID => "steamID is invalid"@,
            SteamError::ServiceUnavailable => "requested service is unavailable"@,
            SteamError::NotLoggedOn => "user not logged on"@,
            SteamError::Pending => "request is pending"@,
            SteamError::EncryptionFailure => "encryption/decryption failed"@,
            SteamError::InsufficientPrivilege => "insufficient privilege"@,
            SteamError::LimitExceeded => "limit exceeded"@,
            SteamError::Revoked => "access revoked"@,
            SteamError::Expired => "access expired"@,
            SteamError::AlreadyRedeemed => "licence/guest pass already redeemed"@,
            SteamError::DuplicateRequest => "request is a duplicate"@,
            SteamError::AlreadyOwned => "all games requested already owned"@,
            SteamError::IPNotFound => "ip address not found"@,
            SteamError::PersistFailed => "failed to write change"@,
            SteamError::LockingFailed => "failed to acquire access lock"@,
            SteamError::LogonSessionReplaced => "logon session replaced"@,
            SteamError::ConnectFailed => "connect failed"@,
            SteamError::HandshakeFailed => "handshake failed"@,
            SteamError::IOFailure => "IO failure"@,
            SteamError::RemoteDisconnect => "remote disconnect"@,
            SteamError::ShoppingCartNotFound => "failed to find the requested shopping cart"@,
            SteamError::Blocked => "action blocked"@,
            SteamError::Ignored => "target is ignoring sender"@,
            SteamError::NoMatch => "no matches found"@,
            SteamError::AccountDisabled => "account disabled"@,
            SteamError::ServiceReadOnly => "service is read only"@,
            SteamError::AccountNotFeatured => "account not featured"@,
            SteamError::AdministratorOK => "administrator ok"@,
            SteamError::ContentVersion => "version mismatch with transmitted content"@,
            SteamError::TryAnotherCM => "CM cannot service user"@,
            SteamError::PasswordRequiredToKickSession => "user already logged in, cached login failed"@,
            SteamError::AlreadyLoggedInElsewhere => "user already logged in, please wait"@,
            SteamError::Suspended => "operation suspended/paused"@,
            SteamError::Cancelled => "operation cancelled"@,
            SteamError::DataCorruption => "operation cancelled due to data corruption"@,
            SteamError::DiskFull => "operation cancelled due to the disk being full"@,
            SteamError::RemoteCallFailed => "remote/IPC call failed"@,
            SteamError::PasswordUnset => "cannot verify unset password"@,
            SteamError::ExternalAccountUnlinked => "external account not linked to steam"@,
            SteamError::PSNTicketInvalid => "PSN ticket invalid"@,
            SteamError::ExternalAccountAlreadyLinked => "external account already linked"@,
            SteamError::RemoteFileConflict => "sync conflict between remote and local files"@,
            SteamError::IllegalPassword => "new password is illegal"@,
            SteamError::SameAsPreviousValue => "new value is the same as old value"@,
            SteamError::AccountLogonDenied => "2nd factor authentication failed"@,
            SteamError::CannotUseOldPassword => "cannot use old password"@,
            SteamError::InvalidLoginAuthCode => "invalid login auth code"@,
            SteamError::AccountLogonDeniedNoMail => "no email for 2nd factor authentication"@,
            SteamError::HardwareNotCapableOfIPT => "hardware not capable of IPT"@,
            SteamError::IPTInitError => "IPT init error"@,
            SteamError::ParentalControlRestricted => "restricted due to parental controls"@,
            SteamError::FacebookQueryError => "facebook query failed"@,
            SteamError::ExpiredLoginAuthCode => "login denied due to exipred auth code"@,
            SteamError::IPLoginRestrictionFailed => "IP login restriction failed"@,
            SteamError::AccountLockedDown => "account locked down"@,
            SteamError::AccountLogonDeniedVerifiedEmailRequired => "account logon denied verified email required"@,
            SteamError::NoMatchingURL => "no matching URL"@,
            SteamError::BadResponse => "bad response"@,
            SteamError::RequirePasswordReEntry => "password re-entry required"@,
            SteamError::ValueOutOfRange => "value is out of range"@,
            SteamError::UnexpectedError => "unexpected error"@,
            SteamError::Disabled => "service disabled"@,
            SteamError::InvalidCEGSubmission => "submitted files to CEG are invalid"@,
            SteamError::RestrictedDevice => "device is restricted from action"@,
            SteamError::RegionLocked => "region restrictions prevented action"@,
            SteamError::RateLimitExceeded => "temporary rate limit exceeded"@,
            SteamError::AccountLoginDeniedNeedTwoFactor => "two-factor authetication required for login"@,
            SteamError::ItemDeleted => "item deleted"@,
            SteamError::AccountLoginDeniedThrottle => "account login denied, throttled"@,
            SteamError::TwoFactorCodeMismatch => "two-factor code mismatched"@,
            SteamError::TwoFactorActivationCodeMismatch => "two-factor activation code mismatched"@,
            SteamError::AccountAssociatedToMultiplePartners => "account associated to multiple partners"@,
            SteamError::NotModified => "data not modified"@,
            SteamError::NoMobileDevice => "no mobile device associated with account"@,
            SteamError::TimeNotSynced => "time not synced correctly"@,
            SteamError::SmsCodeFailed => "sms code validation failed"@,
            SteamError::AccountLimitExceeded => "account limit exceeded for resource"@,
            SteamError::AccountActivityLimitExceeded => "account activity limit exceeded"@,
            SteamError::PhoneActivityLimitExceeded => "phone activity limited exceeded"@,
            SteamError::RefundToWallet => "must refund to wallet instead of payment method"@,
            SteamError::EmailSendFailure => "email sending failed"@,
            SteamError::NotSettled => "action cannot be performed until payment has settled"@,
            SteamError::NeedCaptcha => "valid captcha required"@,
            SteamError::GSLTDenied => "game server login token has been banned"@,
            SteamError::GSOwnerDenied => "game server owner denied"@,
            SteamError::InvalidItemType => "invalid item type"@,
            SteamError::IPBanned => "IP banned from action"@,
            SteamError::GSLTExpired => "game server login token expired"@,
            SteamError::InsufficientFunds => "insufficient wallet funds for action"@,
            SteamError::TooManyPending => "too many actions pending"@,
            SteamError::NoSiteLicensesFound => "no site licenses found"@,
            SteamError::WGNetworkSendExceeded => "WG network send size exceeded"@,
        }
    }

    /// Every variant's description is a non-empty string.
    pub proof fn lemma_describe_nonempty(self)
        ensures
            self.describe_spec().len() > 0,
    {
        match self {
            SteamError::InitFailed => {
                reveal_strlit("failed to init the steamworks API");
            }
            SteamError::Generic => {
                reveal_strlit("a generic failure from the steamworks API");
            }
            SteamError::NoConnection => {
                reveal_strlit("there isn't a network connection to steam or it failed to connect");
            }
            SteamError::InvalidPassword => {
                reveal_strlit("password or ticket is invalid");
            }
            SteamError::LoggedInElsewhere => {
                reveal_strlit("user logged in elsewhere");
            }
            SteamError::InvalidProtocolVersion => {
                reveal_strlit("the protocol version is incorrect");
            }
            SteamError::InvalidParameter => {
                reveal_strlit("a parameter is invalid");
            }
            SteamError::FileNotFound => {
                reveal_strlit("a file was not found");
            }
            SteamError::Busy => {
                reveal_strlit("method busy");
            }
            SteamError::InvalidState => {
                reveal_strlit("object in invalid state");
            }
            SteamError::InvalidName => {
                reveal_strlit("name is invalid");
            }
            SteamError::InvalidEmail => {
                reveal_strlit("email is invalid");
            }
            SteamError::DuplicateName => {
                reveal_strlit("name is not unique");
            }
            SteamError::AccessDenied => {
                reveal_strlit("access denied");
            }
            SteamError::Timeout => {
                reveal_strlit("operation timed out");
            }
            SteamError::Banned => {
                reveal_strlit("VAC2 banned");
            }
            SteamError::AccountNotFound => {
                reveal_strlit("account not found");
            }
            SteamError::InvalidSteamID => {
                reveal_strlit("steamID is invalid");
            }
            SteamError::ServiceUnavailable => {
                reveal_strlit("requested service is unavailable");
            }
            SteamError::NotLoggedOn => {
                reveal_strlit("user not logged on");
            }
            SteamError::Pending => {
                reveal_strlit("request is pending");
            }
            SteamError::EncryptionFailure => {
                reveal_strlit("encryption/decryption failed");
            }
            SteamError::InsufficientPrivilege => {
                reveal_strlit("insufficient privilege");
            }
            SteamError::LimitExceeded => {
                reveal_strlit("limit exceeded");
            }
            SteamError::Revoked => {
                reveal_strlit("access revoked");
            }
            SteamError::Expired => {
                reveal_strlit("access expired");
            }
            SteamError::AlreadyRedeemed => {
                reveal_strlit("licence/guest pass already redeemed");
            }
            SteamError::DuplicateRequest => {
                reveal_strlit("request is a duplicate");
            }
            SteamError::AlreadyOwned => {
                reveal_strlit("all games requested already owned");
            }
            SteamError::IPNotFound => {
                reveal_strlit("ip address not found");
            }
            SteamError::PersistFailed => {
                reveal_strlit("failed to write change");
            }
            SteamError::LockingFailed => {
                reveal_strlit("failed to acquire access lock");
            }
            SteamError::LogonSessionReplaced => {
                reveal_strlit("logon session replaced");
            }
            SteamError::ConnectFailed => {
                reveal_strlit("connect failed");
            }
            SteamError::HandshakeFailed => {
                reveal_strlit("handshake failed");
            }
            SteamError::IOFailure => {
                reveal_strlit("IO failure");
            }
            SteamError::RemoteDisconnect => {
                reveal_strlit("remote disconnect");
            }
            SteamError::ShoppingCartNotFound => {
                reveal_strlit("failed to find the requested shopping cart");
            }
            SteamError::Blocked => {
                reveal_strlit("action blocked");
            }
            SteamError::Ignored => {
                reveal_strlit("target is ignoring sender");
            }
            SteamError::NoMatch => {
                reveal_strlit("no matches found");
            }
            SteamError::AccountDisabled => {
                reveal_strlit("account disabled");
            }
            SteamError::ServiceReadOnly => {
                reveal_strlit("service is read only");
            }
            SteamError::AccountNotFeatured => {
                reveal_strlit("account not featured");
            }
            SteamError::AdministratorOK => {
                reveal_strlit("administrator ok");
            }
            SteamError::ContentVersion => {
                reveal_strlit("version mismatch with transmitted content");
            }
            SteamError::TryAnotherCM => {
                reveal_strlit("CM cannot service user");
            }
            SteamError::PasswordRequiredToKickSession => {
                reveal_strlit("user already logged in, cached login failed");
            }
            SteamError::AlreadyLoggedInElsewhere => {
                reveal_strlit("user already logged in, please wait");
            }
            SteamError::Suspended => {
                reveal_strlit("operation suspended/paused");
            }
            SteamError::Cancelled => {
                reveal_strlit("operation cancelled");
            }
            SteamError::DataCorruption => {
                reveal_strlit("operation cancelled due to data corruption");
            }
            SteamError::DiskFull => {
                reveal_strlit("operation cancelled due to the disk being full");
            }
            SteamError::RemoteCallFailed => {
                reveal_strlit("remote/IPC call failed");
            }
            SteamError::PasswordUnset => {
                reveal_strlit("cannot verify unset password");
            }
            SteamError::ExternalAccountUnlinked => {
                reveal_strlit("external account not linked to steam");
            }
            SteamError::PSNTicketInvalid => {
                reveal_strlit("PSN ticket invalid");
            }
            SteamError::ExternalAccountAlreadyLinked => {
                reveal_strlit("external account already linked");
            }
            SteamError::RemoteFileConflict => {
                reveal_strlit("sync conflict between remote and local files");
            }
            SteamError::IllegalPassword => {
                reveal_strlit("new password is illegal");
            }
            SteamError::SameAsPreviousValue => {
                reveal_strlit("new value is the same as old value");
            }
            SteamError::AccountLogonDenied => {
                reveal_strlit("2nd factor authentication failed");
            }
            SteamError::CannotUseOldPassword => {
                reveal_strlit("cannot use old password");
            }
            SteamError::InvalidLoginAuthCode => {
                reveal_strlit("invalid login auth code");
            }
            SteamError::AccountLogonDeniedNoMail => {
                reveal_strlit("no email for 2nd factor authentication");
            }
            SteamError::HardwareNotCapableOfIPT => {
                reveal_strlit("hardware not capable of IPT");
            }
            SteamError::IPTInitError => {
                reveal_strlit("IPT init error");
            }
            SteamError::ParentalControlRestricted => {
                reveal_strlit("restricted due to parental controls");
            }
            SteamError::FacebookQueryError => {
                reveal_strlit("facebook query failed");
            }
            SteamError::ExpiredLoginAuthCode => {
                reveal_strlit("login denied due to exipred auth code");
            }
            SteamError::IPLoginRestrictionFailed => {
                reveal_strlit("IP login restriction failed");
            }
            SteamError::AccountLockedDown => {
                reveal_strlit("account locked down");
            }
            SteamError::AccountLogonDeniedVerifiedEmailRequired => {
                reveal_strlit("account logon denied verified email required");
            }
            SteamError::NoMatchingURL => {
                reveal_strlit("no matching URL");
            }
            SteamError::BadResponse => {
                reveal_strlit("bad response");
            }
            SteamError::RequirePasswordReEntry => {
                reveal_strlit("password re-entry required");
            }
            SteamError::ValueOutOfRange => {
                reveal_strlit("value is out of range");
            }
            SteamError::UnexpectedError => {
                reveal_strlit("unexpected error");
            }
            SteamError::Disabled => {
                reveal_strlit("service disabled");
            }
            SteamError::InvalidCEGSubmission => {
                reveal_strlit("submitted files to CEG are invalid");
            }
            SteamError::RestrictedDevice => {
                reveal_strlit("device is restricted from action");
            }
            SteamError::RegionLocked => {
                reveal_strlit("region restrictions prevented action");
            }
            SteamError::RateLimitExceeded => {
                reveal_strlit("temporary rate limit exceeded");
            }
            SteamError::AccountLoginDeniedNeedTwoFactor => {
                reveal_strlit("two-factor authetication required for login");
            }
            SteamError::ItemDeleted => {
                reveal_strlit("item deleted");
            }
            SteamError::AccountLoginDeniedThrottle => {
                reveal_strlit("account login denied, throttled");
            }
            SteamError::TwoFactorCodeMismatch => {
                reveal_strlit("two-factor code mismatched");
            }
            SteamError::TwoFactorActivationCodeMismatch => {
                reveal_strlit("two-factor activation code mismatched");
            }
            SteamError::AccountAssociatedToMultiplePartners => {
                reveal_strlit("account associated to multiple partners");
            }
            SteamError::NotModified => {
                reveal_strlit("data not modified");
            }
            SteamError::NoMobileDevice => {
                reveal_strlit("no mobile device associated with account");
            }
            SteamError::TimeNotSynced => {
                reveal_strlit("time not synced correctly");
            }
            SteamError::SmsCodeFailed => {
                reveal_strlit("sms code validation failed");
            }
            SteamError::AccountLimitExceeded => {
                reveal_strlit("account limit exceeded for resource");
            }
            SteamError::AccountActivityLimitExceeded => {
                reveal_strlit("account activity limit exceeded");
            }
            SteamError::PhoneActivityLimitExceeded => {
                reveal_strlit("phone activity limited exceeded");
            }
            SteamError::RefundToWallet => {
                reveal_strlit("must refund to wallet instead of payment method");
            }
            SteamError::EmailSendFailure => {
                reveal_strlit("email sending failed");
            }
            SteamError::NotSettled => {
                reveal_strlit("action cannot be performed until payment has settled");
            }
            SteamError::NeedCaptcha => {
                reveal_strlit("valid captcha required");
            }
            SteamError::GSLTDenied => {
                reveal_strlit("game server login token has been banned");
            }
            SteamError::GSOwnerDenied => {
                reveal_strlit("game server owner denied");
            }
            SteamError::InvalidItemType => {
                reveal_strlit("invalid item type");
            }
            SteamError::IPBanned => {
                reveal_strlit("IP banned from action");
            }
            SteamError::GSLTExpired => {
                reveal_strlit("game server login token expired");
            }
            SteamError::InsufficientFunds => {
                reveal_strlit("insufficient wallet funds for action");
            }
            SteamError::TooManyPending => {
                reveal_strlit("too many actions pending");
            }
            SteamError::NoSiteLicensesFound => {
                reveal_strlit("no site licenses found");
            }
            SteamError::WGNetworkSendExceeded => {
                reveal_strlit("WG network send size exceeded");
            }
        }
    }

    /// The fixed, human-readable description of this error, suitable for
    /// logging or display. Pure and total: repeated calls on the same
    /// variant return the identical non-empty string.
    pub fn describe(self) -> (r: &'static str)
        ensures
            r@ == self.describe_spec(),
            r@.len() > 0,
    {
        proof {
            self.lemma_describe_nonempty();
        }
        match self {
            SteamError::InitFailed => "failed to init the steamworks API",
            SteamError::Generic => "a generic failure from the steamworks API",
            SteamError::NoConnection => "there isn't a network connection to steam or it failed to connect",
            SteamError::InvalidPassword => "password or ticket is invalid",
            SteamError::LoggedInElsewhere => "user logged in elsewhere",
            SteamError::InvalidProtocolVersion => "the protocol version is incorrect",
            SteamError::InvalidParameter => "a parameter is invalid",
            SteamError::FileNotFound => "a file was not found",
            SteamError::Busy => "method busy",
            SteamError::InvalidState => "object in invalid state",
            SteamError::InvalidName => "name is invalid",
            SteamError::InvalidEmail => "email is invalid",
            SteamError::DuplicateName => "name is not unique",
            SteamError::AccessDenied => "access denied",
            SteamError::Timeout => "operation timed out",
            SteamError::Banned => "VAC2 banned",
            SteamError::AccountNotFound => "account not found",
            SteamError::InvalidSteamID => "steamID is invalid",
            SteamError::ServiceUnavailable => "requested service is unavailable",
            SteamError::NotLoggedOn => "user not logged on",
            SteamError::Pending => "request is pending",
            SteamError::EncryptionFailure => "encryption/decryption failed",
            SteamError::InsufficientPrivilege => "insufficient privilege",
            SteamError::LimitExceeded => "limit exceeded",
            SteamError::Revoked => "access revoked",
            SteamError::Expired => "access expired",
            SteamError::AlreadyRedeemed => "licence/guest pass already redeemed",
            SteamError::DuplicateRequest => "request is a duplicate",
            SteamError::AlreadyOwned => "all games requested already owned",
            SteamError::IPNotFound => "ip address not found",
            SteamError::PersistFailed => "failed to write change",
            SteamError::LockingFailed => "failed to acquire access lock",
            SteamError::LogonSessionReplaced => "logon session replaced",
            SteamError::ConnectFailed => "connect failed",
            SteamError::HandshakeFailed => "handshake failed",
            SteamError::IOFailure => "IO failure",
            SteamError::RemoteDisconnect => "remote disconnect",
            SteamError::ShoppingCartNotFound => "failed to find the requested shopping cart",
            SteamError::Blocked => "action blocked",
            SteamError::Ignored => "target is ignoring sender",
            SteamError::NoMatch => "no matches found",
            SteamError::AccountDisabled => "account disabled",
            SteamError::ServiceReadOnly => "service is read only",
            SteamError::AccountNotFeatured => "account not featured",
            SteamError::AdministratorOK => "administrator ok",
            SteamError::ContentVersion => "version mismatch with transmitted content",
            SteamError::TryAnotherCM => "CM cannot service user",
            SteamError::PasswordRequiredToKickSession => "user already logged in, cached login failed",
            SteamError::AlreadyLoggedInElsewhere => "user already logged in, please wait",
            SteamError::Suspended => "operation suspended/paused",
            SteamError::Cancelled => "operation cancelled",
            SteamError::DataCorruption => "operation cancelled due to data corruption",
            SteamError::DiskFull => "operation cancelled due to the disk being full",
            SteamError::RemoteCallFailed => "remote/IPC call failed",
            SteamError::PasswordUnset => "cannot verify unset password",
            SteamError::ExternalAccountUnlinked => "external account not linked to steam",
            SteamError::PSNTicketInvalid => "PSN ticket invalid",
            SteamError::ExternalAccountAlreadyLinked => "external account already linked",
            SteamError::RemoteFileConflict => "sync conflict between remote and local files",
            SteamError::IllegalPassword => "new password is illegal",
            SteamError::SameAsPreviousValue => "new value is the same as old value",
            SteamError::AccountLogonDenied => "2nd factor authentication failed",
            SteamError::CannotUseOldPassword => "cannot use old password",
            SteamError::InvalidLoginAuthCode => "invalid login auth code",
            SteamError::AccountLogonDeniedNoMail => "no email for 2nd factor authentication",
            SteamError::HardwareNotCapableOfIPT => "hardware not capable of IPT",
            SteamError::IPTInitError => "IPT init error",
            SteamError::ParentalControlRestricted => "restricted due to parental controls",
            SteamError::FacebookQueryError => "facebook query failed",
            SteamError::ExpiredLoginAuthCode => "login denied due to exipred auth code",
            SteamError::IPLoginRestrictionFailed => "IP login restriction failed",
            SteamError::AccountLockedDown => "account locked down",
            SteamError::AccountLogonDeniedVerifiedEmailRequired => "account logon denied verified email required",
            SteamError::NoMatchingURL => "no matching URL",
            SteamError::BadResponse => "bad response",
            SteamError::RequirePasswordReEntry => "password re-entry required",
            SteamError::ValueOutOfRange => "value is out of range",
            SteamError::UnexpectedError => "unexpected error",
            SteamError::Disabled => "service disabled",
            SteamError::InvalidCEGSubmission => "submitted files to CEG are invalid",
            SteamError::RestrictedDevice => "device is restricted from action",
            SteamError::RegionLocked => "region restrictions prevented action",
            SteamError::RateLimitExceeded => "temporary rate limit exceeded",
            SteamError::AccountLoginDeniedNeedTwoFactor => "two-factor authetication required for login",
            SteamError::ItemDeleted => "item deleted",
            SteamError::AccountLoginDeniedThrottle => "account login denied, throttled",
            SteamError::TwoFactorCodeMismatch => "two-factor code mismatched",
            SteamError::TwoFactorActivationCodeMismatch => "two-factor activation code mismatched",
            SteamError::AccountAssociatedToMultiplePartners => "account associated to multiple partners",
            SteamError::NotModified => "data not modified",
            SteamError::NoMobileDevice => "no mobile device associated with account",
            SteamError::TimeNotSynced => "time not synced correctly",
            SteamError::SmsCodeFailed => "sms code validation failed",
            SteamError::AccountLimitExceeded => "account limit exceeded for resource",
            SteamError::AccountActivityLimitExceeded => "account activity limit exceeded",
            SteamError::PhoneActivityLimitExceeded => "phone activity limited exceeded",
            SteamError::RefundToWallet => "must refund to wallet instead of payment method",
            SteamError::EmailSendFailure => "email sending failed",
            SteamError::NotSettled => "action cannot be performed until payment has settled",
            SteamError::NeedCaptcha => "valid captcha required",
            SteamError::GSLTDenied => "game server login token has been banned",
            SteamError::GSOwnerDenied => "game server owner denied",
            SteamError::InvalidItemType => "invalid item type",
            SteamError::IPBanned => "IP banned from action",
            SteamError::GSLTExpired => "game server login token expired",
            SteamError::InsufficientFunds => "insufficient wallet funds for action",
            SteamError::TooManyPending => "too many actions pending",
            SteamError::NoSiteLicensesFound => "no site licenses found",
            SteamError::WGNetworkSendExceeded => "WG network send size exceeded",
        }
    }
}

} // verus!
