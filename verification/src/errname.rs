//! Error codes of the host platform and their names.

use vstd::prelude::*;

verus! {

/// A platform error code; zero is success.
pub type EspErr = i32;

pub const ESP_OK: i32 = 0;

pub const ESP_FAIL: i32 = -1;

pub const ESP_ERR_NO_MEM: i32 = 0x101;

pub const ESP_ERR_INVALID_ARG: i32 = 0x102;

pub const ESP_ERR_INVALID_STATE: i32 = 0x103;

pub const ESP_ERR_INVALID_SIZE: i32 = 0x104;

pub const ESP_ERR_NOT_FOUND: i32 = 0x105;

pub const ESP_ERR_NOT_SUPPORTED: i32 = 0x106;

pub const ESP_ERR_TIMEOUT: i32 = 0x107;

pub const ESP_ERR_INVALID_RESPONSE: i32 = 0x108;

/// The name of a code.
pub open spec fn esp_name_of(err: int) -> Seq<char> {
    if err == ESP_OK {
        "ESP_OK"@
    } else if err == ESP_FAIL {
        "ESP_FAIL"@
    } else if err == ESP_ERR_NO_MEM {
        "ESP_ERR_NO_MEM"@
    } else if err == ESP_ERR_INVALID_ARG {
        "ESP_ERR_INVALID_ARG"@
    } else if err == ESP_ERR_INVALID_STATE {
        "ESP_ERR_INVALID_STATE"@
    } else if err == ESP_ERR_INVALID_SIZE {
        "ESP_ERR_INVALID_SIZE"@
    } else if err == ESP_ERR_NOT_FOUND {
        "ESP_ERR_NOT_FOUND"@
    } else if err == ESP_ERR_NOT_SUPPORTED {
        "ESP_ERR_NOT_SUPPORTED"@
    } else if err == ESP_ERR_TIMEOUT {
        "ESP_ERR_TIMEOUT"@
    } else if err == ESP_ERR_INVALID_RESPONSE {
        "ESP_ERR_INVALID_RESPONSE"@
    } else {
        "UNKNOWN ERROR"@
    }
}

/// The name of a code, for messages and logs.
pub fn esp_err_to_name(err: EspErr) -> (r: &'static str)
    ensures
        r@ == esp_name_of(err as int),
{
    if err == ESP_OK {
        "ESP_OK"
    } else if err == ESP_FAIL {
        "ESP_FAIL"
    } else if err == ESP_ERR_NO_MEM {
        "ESP_ERR_NO_MEM"
    } else if err == ESP_ERR_INVALID_ARG {
        "ESP_ERR_INVALID_ARG"
    } else if err == ESP_ERR_INVALID_STATE {
        "ESP_ERR_INVALID_STATE"
    } else if err == ESP_ERR_INVALID_SIZE {
        "ESP_ERR_INVALID_SIZE"
    } else if err == ESP_ERR_NOT_FOUND {
        "ESP_ERR_NOT_FOUND"
    } else if err == ESP_ERR_NOT_SUPPORTED {
        "ESP_ERR_NOT_SUPPORTED"
    } else if err == ESP_ERR_TIMEOUT {
        "ESP_ERR_TIMEOUT"
    } else if err == ESP_ERR_INVALID_RESPONSE {
        "ESP_ERR_INVALID_RESPONSE"
    } else {
        "UNKNOWN ERROR"
    }
}

/// Each known code has its own name, and any other is unknown.
pub proof fn law_codes_have_their_names(err: int)
    ensures
        esp_name_of(ESP_OK as int) == "ESP_OK"@,
        esp_name_of(ESP_FAIL as int) == "ESP_FAIL"@,
        esp_name_of(ESP_ERR_NO_MEM as int) == "ESP_ERR_NO_MEM"@,
        esp_name_of(ESP_ERR_INVALID_ARG as int) == "ESP_ERR_INVALID_ARG"@,
        esp_name_of(ESP_ERR_INVALID_STATE as int) == "ESP_ERR_INVALID_STATE"@,
        esp_name_of(ESP_ERR_INVALID_SIZE as int) == "ESP_ERR_INVALID_SIZE"@,
        esp_name_of(ESP_ERR_NOT_FOUND as int) == "ESP_ERR_NOT_FOUND"@,
        esp_name_of(ESP_ERR_NOT_SUPPORTED as int) == "ESP_ERR_NOT_SUPPORTED"@,
        esp_name_of(ESP_ERR_TIMEOUT as int) == "ESP_ERR_TIMEOUT"@,
        esp_name_of(ESP_ERR_INVALID_RESPONSE as int) == "ESP_ERR_INVALID_RESPONSE"@,
        err != 0 && err != -1 && !(0x101 <= err <= 0x108) ==> esp_name_of(err) == "UNKNOWN ERROR"@,
        ESP_OK == 0 && ESP_FAIL == -1 && ESP_ERR_NO_MEM == 0x101 && ESP_ERR_INVALID_ARG == 0x102,
        ESP_ERR_INVALID_STATE == 0x103 && ESP_ERR_INVALID_SIZE == 0x104 && ESP_ERR_NOT_FOUND == 0x105,
        ESP_ERR_NOT_SUPPORTED == 0x106 && ESP_ERR_TIMEOUT == 0x107 && ESP_ERR_INVALID_RESPONSE == 0x108,
{
}

} // verus!
