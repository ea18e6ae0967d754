use input_method_service::{
    IMService, ImRequest, KeyState, KeymapBlob, SubmitError, VkRequest,
};

fn sample_keymap() -> KeymapBlob {
    KeymapBlob::new(b"xkb_keymap { };".to_vec())
}

#[test]
fn im_absent_requests_fail_with_im_not_available() {
    let mut facade = IMService::new(None, None);
    assert_eq!(
        facade.commit_string(true, "hi".to_string()),
        Err(SubmitError::IMNotAvailable)
    );
    assert_eq!(
        facade.delete_surrounding_text(true, 1, 1),
        Err(SubmitError::IMNotAvailable)
    );
    assert_eq!(facade.commit(true), Err(SubmitError::IMNotAvailable));
    assert_eq!(facade.make_unavailable(), Err(SubmitError::IMNotAvailable));
    assert_eq!(facade.im_serial(), None);
}

#[test]
fn vk_absent_requests_fail_with_vk_not_available() {
    let mut facade = IMService::new(Some(IMService::new_im()), None);
    assert_eq!(
        facade.send_key(true, 0, 30, KeyState::Pressed),
        Err(SubmitError::VKNotAvailable)
    );
    assert_eq!(facade.modifiers(true, 1, 0, 0, 0), Err(SubmitError::VKNotAvailable));
}

#[test]
fn dead_session_requests_fail_with_not_alive() {
    let keymap = sample_keymap();
    let (vk, _publish) = IMService::new_vk(0, &keymap);
    let mut facade = IMService::new(Some(IMService::new_im()), Some(vk));
    let serial_before = facade.im_serial();
    assert_eq!(
        facade.commit_string(false, "hi".to_string()),
        Err(SubmitError::NotAlive)
    );
    assert_eq!(facade.delete_surrounding_text(false, 1, 1), Err(SubmitError::NotAlive));
    assert_eq!(facade.commit(false), Err(SubmitError::NotAlive));
    assert_eq!(facade.send_key(false, 10, 30, KeyState::Pressed), Err(SubmitError::NotAlive));
    assert_eq!(facade.modifiers(false, 1, 0, 0, 0), Err(SubmitError::NotAlive));
    assert_eq!(facade.im_serial(), serial_before);
}

#[test]
fn vk_only_facade_rejects_text_but_sends_keys() {
    let keymap = sample_keymap();
    let (vk, _publish) = IMService::new_vk(0, &keymap);
    let mut facade = IMService::new(None, Some(vk));
    assert_eq!(
        facade.commit_string(true, "hi".to_string()),
        Err(SubmitError::IMNotAvailable)
    );
    let sent = facade.send_key(true, 0, 30, KeyState::Pressed);
    assert!(sent.is_ok());
}

#[test]
fn im_dead_remote_leaves_serial_unchanged() {
    let mut facade = IMService::new(Some(IMService::new_im()), None);
    let serial_before = facade.im_serial();
    assert_eq!(facade.delete_surrounding_text(false, 3, 0), Err(SubmitError::NotAlive));
    assert_eq!(facade.commit(false), Err(SubmitError::NotAlive));
    assert_eq!(facade.im_serial(), serial_before);
}

#[test]
fn successful_commits_attach_consecutive_serials() {
    let mut facade = IMService::new(Some(IMService::new_im()), None);
    assert_eq!(facade.commit(true), Ok(ImRequest::Commit { serial: 0 }));
    assert_eq!(facade.commit(true), Ok(ImRequest::Commit { serial: 1 }));
    assert_eq!(facade.commit(true), Ok(ImRequest::Commit { serial: 2 }));
    assert_eq!(facade.im_serial(), Some(3));
}

#[test]
fn failed_commit_between_successes_does_not_advance_serial() {
    let mut facade = IMService::new(Some(IMService::new_im()), None);
    assert_eq!(facade.commit(true), Ok(ImRequest::Commit { serial: 0 }));
    assert_eq!(facade.commit(false), Err(SubmitError::NotAlive));
    assert_eq!(facade.commit(true), Ok(ImRequest::Commit { serial: 1 }));
}

#[test]
fn commit_string_stages_the_text() {
    let facade = IMService::new(Some(IMService::new_im()), None);
    assert_eq!(
        facade.commit_string(true, "hello".to_string()),
        Ok(ImRequest::CommitString { text: "hello".to_string() })
    );
}

#[test]
fn delete_surrounding_text_counts_pass_through() {
    let facade = IMService::new(Some(IMService::new_im()), None);
    assert_eq!(
        facade.delete_surrounding_text(true, 3, 1),
        Ok(ImRequest::DeleteSurroundingText { before: 3, after: 1 })
    );
}

#[test]
fn make_unavailable_destroys_and_blocks_later_requests() {
    let mut facade = IMService::new(Some(IMService::new_im()), None);
    assert_eq!(facade.make_unavailable(), Ok(ImRequest::Destroy));
    // The remote may still report alive; the session itself is gone.
    assert_eq!(facade.commit(true), Err(SubmitError::NotAlive));
    assert_eq!(
        facade.commit_string(true, "hi".to_string()),
        Err(SubmitError::NotAlive)
    );
    assert_eq!(facade.im_serial(), Some(0));
}

#[test]
fn keymap_publication_request_reports_blob_size() {
    let bytes: Vec<u8> = (0u8..12u8).collect();
    let keymap = KeymapBlob::new(bytes);
    let (_vk, publish) = IMService::new_vk(0, &keymap);
    assert_eq!(publish, VkRequest::Keymap { format: 1, size: 12 });
}

#[test]
fn send_key_stamps_elapsed_milliseconds() {
    let keymap = sample_keymap();
    let (vk, _publish) = IMService::new_vk(1_000, &keymap);
    let mut facade = IMService::new(None, Some(vk));
    assert_eq!(
        facade.send_key(true, 1_250, 30, KeyState::Pressed),
        Ok(VkRequest::Key { time: 250, keycode: 30, state: 1 })
    );
    assert_eq!(
        facade.send_key(true, 1_300, 30, KeyState::Released),
        Ok(VkRequest::Key { time: 300, keycode: 30, state: 0 })
    );
}

#[test]
fn send_key_epoch_reset_restarts_at_zero() {
    let keymap = sample_keymap();
    let (vk, _publish) = IMService::new_vk(0, &keymap);
    let mut facade = IMService::new(None, Some(vk));
    let beyond = u32::MAX as u64 + 1;
    assert_eq!(
        facade.send_key(true, beyond, 30, KeyState::Pressed),
        Ok(VkRequest::Key { time: 0, keycode: 30, state: 1 })
    );
    assert_eq!(
        facade.send_key(true, beyond + 40, 30, KeyState::Released),
        Ok(VkRequest::Key { time: 40, keycode: 30, state: 0 })
    );
}

#[test]
fn modifiers_bitmasks_pass_through() {
    let keymap = sample_keymap();
    let (vk, _publish) = IMService::new_vk(0, &keymap);
    let facade = IMService::new(None, Some(vk));
    assert_eq!(
        facade.modifiers(true, 0x1, 0x2, 0x4, 1),
        Ok(VkRequest::Modifiers {
            mods_depressed: 0x1,
            mods_latched: 0x2,
            mods_locked: 0x4,
            group: 1,
        })
    );
}
