use sarek::error::{EncodingError, Error, Misuse};
use sarek::native;
use sarek::native::{check, Created, ERROR_INITIALIZATION_FAILED, INCOMPLETE, SUCCESS};

fn one_of_each() -> Vec<Error> {
    vec![
        Error::General("something went wrong".to_string()),
        Error::Encoding(EncodingError::InteriorNul { position: 4 }),
        Error::Encoding(EncodingError::InvalidUtf8 { valid_up_to: 17 }),
        Error::Native(-7),
        Error::Misuse(Misuse::LoaderShared),
    ]
}

#[test]
fn every_kind_has_its_description() {
    let names: Vec<&str> = one_of_each().iter().map(|e| e.description()).collect();
    assert_eq!(names, vec!["", "Nul Error", "UTF-8 Error", "Vulkan Error", "Misuse"]);
}

#[test]
fn messages_name_the_kind_and_the_detail() {
    let messages: Vec<String> = one_of_each().iter().map(|e| e.message()).collect();
    assert_eq!(
        messages,
        vec![
            "something went wrong".to_string(),
            "Nul Error: nul byte found in provided data at position: 4".to_string(),
            "UTF-8 Error: invalid utf-8 sequence from index 17".to_string(),
            "Vulkan Error: -7".to_string(),
            "Misuse: loader was shared before it was populated".to_string(),
        ]
    );
    assert_eq!(Error::Native(0).message(), "Vulkan Error: 0");
    assert_eq!(Error::Native(5).message(), "Vulkan Error: 5");
    assert_eq!(Error::Native(i32::MIN).message(), "Vulkan Error: -2147483648");
    assert_eq!(Error::Native(i32::MAX).message(), "Vulkan Error: 2147483647");
    assert_eq!(Error::General(String::new()).message(), "");
}

#[test]
fn the_nul_message_names_the_position() {
    let ours = Error::Encoding(EncodingError::InteriorNul { position: 2 });
    assert_eq!(ours.message(), "Nul Error: nul byte found in provided data at position: 2");
    let far = Error::Encoding(EncodingError::InteriorNul { position: usize::MAX });
    assert_eq!(
        far.message(),
        format!("Nul Error: nul byte found in provided data at position: {}", usize::MAX)
    );
}

#[test]
fn every_misuse_has_its_wording() {
    assert_eq!(Misuse::LoaderShared.description(), "loader was shared before it was populated");
    assert_eq!(Misuse::LoaderPopulated.description(), "loader was populated before");
    assert_eq!(Misuse::LoaderUnpopulated.description(), "loader was not populated");
    assert_eq!(Misuse::CapabilityMissing.description(), "capability is not enabled");
    assert_eq!(Misuse::NotOwned.description(), "handle is not owned here");
    assert_eq!(
        Error::Misuse(Misuse::CapabilityMissing).message(),
        "Misuse: capability is not enabled"
    );
}

#[test]
fn only_encoding_errors_have_a_cause() {
    let causes: Vec<Option<EncodingError>> = one_of_each().iter().map(|e| e.cause()).collect();
    assert_eq!(
        causes,
        vec![
            None,
            Some(EncodingError::InteriorNul { position: 4 }),
            Some(EncodingError::InvalidUtf8 { valid_up_to: 17 }),
            None,
            None,
        ]
    );
}

#[test]
fn only_native_errors_have_a_code() {
    let codes: Vec<Option<i32>> = one_of_each().iter().map(|e| e.code()).collect();
    assert_eq!(codes, vec![None, None, None, Some(-7), None]);
}

#[test]
fn errors_are_made_from_what_they_wrap() {
    assert_eq!(Error::from("text".to_string()), Error::General("text".to_string()));
    assert_eq!(Error::general("text"), Error::General("text".to_string()));
    assert_eq!(Error::from(-3), Error::Native(-3));
    assert_eq!(
        Error::from(EncodingError::InteriorNul { position: 0 }),
        Error::Encoding(EncodingError::InteriorNul { position: 0 })
    );
    assert_eq!(Error::from(Misuse::NotOwned), Error::Misuse(Misuse::NotOwned));
    let converted: Result<(), Error> = Err(5).map_err(Error::from);
    assert_eq!(converted, Err(Error::Native(5)));
}

#[test]
fn result_codes_are_success_or_native_errors() {
    assert_eq!(check(SUCCESS), Ok(()));
    assert_eq!(check(INCOMPLETE), Err(Error::Native(5)));
    assert_eq!(check(-7), Err(Error::Native(-7)));
    assert_eq!(check(1), Err(Error::Native(1)));
    assert_eq!(Created { code: SUCCESS, handle: 9 }.handle(), Ok(9));
    assert_eq!(Created { code: -6, handle: 9 }.handle(), Err(Error::Native(-6)));
    assert_eq!(Created { code: -6, handle: 0 }.handle(), Err(Error::Native(-6)));
    assert_eq!(
        Created { code: SUCCESS, handle: 0 }.handle(),
        Err(Error::Native(ERROR_INITIALIZATION_FAILED))
    );
}

#[test]
fn result_codes_are_those_of_the_native_headers() {
    assert_eq!(native::SUCCESS, vks::vk::VK_SUCCESS);
    assert_eq!(native::INCOMPLETE, vks::vk::VK_INCOMPLETE);
    assert_eq!(native::ERROR_INITIALIZATION_FAILED, vks::vk::VK_ERROR_INITIALIZATION_FAILED);
    assert_eq!(native::ERROR_LAYER_NOT_PRESENT, vks::vk::VK_ERROR_LAYER_NOT_PRESENT);
    assert_eq!(native::ERROR_EXTENSION_NOT_PRESENT, vks::vk::VK_ERROR_EXTENSION_NOT_PRESENT);
    assert_eq!(native::ERROR_FEATURE_NOT_PRESENT, vks::vk::VK_ERROR_FEATURE_NOT_PRESENT);
    assert_eq!(native::ERROR_INCOMPATIBLE_DRIVER, vks::vk::VK_ERROR_INCOMPATIBLE_DRIVER);
    assert_eq!(native::ERROR_FORMAT_NOT_SUPPORTED, vks::vk::VK_ERROR_FORMAT_NOT_SUPPORTED);
    assert_eq!(native::TRUE, vks::vk::VK_TRUE);
    assert_eq!(native::FALSE, vks::vk::VK_FALSE);
}
