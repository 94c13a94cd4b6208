use vibewatch::audio::{
    asr_words, chunk_written, esp_result, mic_request, play_pcm, prompt_enabled, read_mic_i16,
    save_prompt_enabled, speaker_request, write_speaker_bytes, AsrConfig, AudioError, Capture,
    CaptureStep, Driver, Prompt, PromptPlayer,
};
use vibewatch::background::{load_from_nvs, stored_len, validate_gif, GifError};
use vibewatch::ble_provision::{
    audio_packet, background_expected_size, background_packet, config_snapshot, config_write,
    handle_audio_upload_write, handle_background_upload_write, pcm_expected_size, reset_write,
    validate_pcm, AudioUpload, BtEvent, PatchWrite, UploadError,
};
use vibewatch::boot::{
    main_menu_mode, setting_menu_mode, wait_boot_press, wifi_sta_mac_client_id, BootMode, BootWait,
    BOOT_SETTLE_MS,
};
use vibewatch::calendar::{civil_from_days, days_from_civil};
use vibewatch::exio::{read_exio, set_exio, toggle_exio, ExioPin};
use vibewatch::network::{
    http_date_sync_status, parse_http_date, parse_timezone_body, server_time, sntp_needed,
    sync_failure_skips,
    sync_time_next, sync_title, take_body, timezone_attempt_text, timezone_next, timezone_retry,
    timezone_text, wifi_begin, AuthMethod, HttpDateError, HttpDateSyncStatus, SntpNext,
    TimezoneNext, WifiBegin, WifiConnect, WifiNext,
};
use vibewatch::new_jpg::JpegBufferu16;
use vibewatch::ota::{
    download_size, ota_download_latest, ota_menu, ota_menu_items, ota_page, ota_task,
    ota_write_upload, upload_answer, OtaEvent, OtaMenuChoice, OtaNext, UploadNext,
};
use vibewatch::power::{
    battery_percent, esp_err, external_power_connected, pmu_status, LockNext, LockStep, PowerLock,
    PowerLocks,
};
use vibewatch::setting::{Setting, WifiCred};
use vibewatch::ui::menu::{MainMenuSelection, SettingMenuSelection};
use vibewatch::util::{create_unlimited_wav_header, WavConfig};

fn cred(ssid: &str, pass: &str) -> WifiCred {
    WifiCred {
        ssid: ssid.to_string(),
        pass: pass.to_string(),
    }
}

fn pairs(list: &[WifiCred]) -> Vec<(&str, &str)> {
    list.iter()
        .map(|c| (c.ssid.as_str(), c.pass.as_str()))
        .collect()
}

#[test]
fn networks_are_kept_and_read_back() {
    let list = [cred("home", "a\"b"), cred("café", "")];
    let json = Setting::save_wifi_list(&list);
    assert_eq!(
        json,
        r#"[{"ssid":"home","pass":"a\"b"},{"ssid":"café","pass":""}]"#
    );
    let setting = Setting::load_from_nvs(Some(&json), Some("mqtt://x"));
    assert_eq!(pairs(&setting.wifi_list), vec![("home", "a\"b"), ("café", "")]);
    assert_eq!(setting.server_url, "mqtt://x");
    assert!(!setting.need_init());
    assert_eq!(Setting::save_wifi_list(&[]), "[]");
    for bad in ["", "{}", r#"[{"ssid":"a"}]"#, r#"[{"ssid":"a","pass":"b","pass":"c"}]"#] {
        let setting = Setting::load_from_nvs(Some(bad), Some("u"));
        assert!(setting.wifi_list.is_empty() && setting.need_init());
    }
    let other = Setting::load_from_nvs(Some(r#" [ ["n","p"], {"pass":"q","x":[],"ssid":"m"} ] "#), None);
    assert_eq!(pairs(&other.wifi_list), vec![("n", "p"), ("m", "q")]);
    assert!(other.need_init());
}

#[test]
fn named_networks_are_tried_in_order() {
    assert_eq!(wifi_begin(true, false), WifiBegin::AlreadyConnected);
    assert_eq!(wifi_begin(false, false), WifiBegin::Start);
    assert_eq!(wifi_begin(false, true), WifiBegin::Proceed);
    let list = [cred("", "x"), cred("a", ""), cred("", ""), cred("b", "p")];
    let mut connect = WifiConnect::new();
    assert_eq!(
        connect.connect(&list),
        WifiNext::Try {
            index: 1,
            auth_method: AuthMethod::Open
        }
    );
    assert_eq!(
        connect.connect(&list),
        WifiNext::Try {
            index: 3,
            auth_method: AuthMethod::WPA2Personal
        }
    );
    assert_eq!(connect.connect(&list), WifiNext::AllFailed);
    assert_eq!(
        WifiConnect::new().connect(&[cred("", "")]),
        WifiNext::EmptyList
    );
}

#[test]
fn dates_of_answers_are_read() {
    assert_eq!(
        parse_http_date("Sun, 06 Nov 1994 08:49:37 GMT"),
        Ok(784_111_777)
    );
    assert_eq!(parse_http_date("x 1 Jan 1970 0:0:0 GMT y"), Ok(0));
    assert_eq!(
        parse_http_date("\tx\n29  Feb 2000 23:59:59:77 GMT"),
        Ok(951_868_799)
    );
    for (text, error) in [
        ("", HttpDateError::MissingDay),
        ("Sun,", HttpDateError::MissingDay),
        ("Sun, x", HttpDateError::UnreadableDay),
        ("Sun, 06", HttpDateError::MissingMonth),
        ("Sun, 06 nov", HttpDateError::InvalidMonth),
        ("Sun, 06 Nov", HttpDateError::MissingYear),
        ("Sun, 06 Nov y", HttpDateError::UnreadableYear),
        ("Sun, 06 Nov 1994", HttpDateError::MissingTime),
        ("Sun, 06 Nov 1994 1:2:3", HttpDateError::MissingZone),
        ("Sun, 06 Nov 1994 1:2:3 UTC", HttpDateError::UnsupportedZone),
        ("Sun, 06 Nov 1994 :2:3 GMT", HttpDateError::UnreadableHour),
        ("Sun, 06 Nov 1994 1 GMT", HttpDateError::MissingMinute),
        ("Sun, 06 Nov 1994 1:m GMT", HttpDateError::UnreadableMinute),
        ("Sun, 06 Nov 1994 1:2 GMT", HttpDateError::MissingSecond),
        ("Sun, 06 Nov 1994 1:2:-3 GMT", HttpDateError::UnreadableSecond),
        ("Sun, 32 Nov 1994 1:2:3 GMT", HttpDateError::InvalidDay),
        ("Sun, 0 Nov 1994 1:2:3 GMT", HttpDateError::InvalidDay),
        ("Sun, 06 Nov 1994 24:2:3 GMT", HttpDateError::InvalidHour),
        ("Sun, 06 Nov 1994 1:60:3 GMT", HttpDateError::InvalidMinute),
        ("Sun, 06 Nov 1994 1:2:60 GMT", HttpDateError::InvalidSecond),
        ("Sun, 06 Nov 1969 1:2:3 GMT", HttpDateError::BeforeEpoch),
        ("Sun, 06 Nov 300000000000 1:2:3 GMT", HttpDateError::Overflow),
        (
            "Sun, 06 Nov 9223372036854775807 1:2:3 GMT",
            HttpDateError::Overflow,
        ),
    ] {
        assert_eq!(parse_http_date(text), Err(error), "{text}");
    }
    assert_eq!(server_time(None, Some("x 1 Jan 1970 0:0:9 GMT")), Some(9));
    assert_eq!(server_time(Some("bad"), Some("x 1 Jan 1970 0:0:9 GMT")), None);
}

#[test]
fn days_and_dates_belong_together() {
    assert_eq!(civil_from_days(-719_468), (0, 3, 1));
    assert_eq!(civil_from_days(-1), (1969, 12, 31));
    assert_eq!(civil_from_days(11_016), (2000, 2, 29));
    assert_eq!(civil_from_days(47_540), (2100, 2, 28));
    assert_eq!(civil_from_days(47_541), (2100, 3, 1));
    assert_eq!(days_from_civil(2000, 2, 29), 11_016);
    assert_eq!(days_from_civil(-1, 12, 31), -719_529);
    for day in (-800_000..800_000).step_by(37) {
        let (y, m, d) = civil_from_days(day);
        assert_eq!(days_from_civil(y, m as u32, d as u32), day);
    }
}

#[test]
fn the_clock_is_compared() {
    let second = 1_000_000_000u128;
    assert_eq!(http_date_sync_status(None, 5), HttpDateSyncStatus::Unknown);
    assert!(sntp_needed(None));
    assert!(sntp_needed(Some(HttpDateSyncStatus::Unknown)));
    assert!(sntp_needed(Some(HttpDateSyncStatus::NeedsSntp(1))));
    assert!(!sntp_needed(Some(HttpDateSyncStatus::SkipSntp(1))));
    assert_eq!(
        http_date_sync_status(Some(100 * second), 115 * second),
        HttpDateSyncStatus::SkipSntp(15 * second)
    );
    assert_eq!(
        http_date_sync_status(Some(116 * second), 100 * second),
        HttpDateSyncStatus::NeedsSntp(16 * second)
    );
    assert_eq!(sync_title(0), "Sync time.");
    assert_eq!(sync_title(5), "Sync time...");
    assert_eq!(sync_time_next(28, false), SntpNext::WaitAndLook);
    assert_eq!(sync_time_next(29, false), SntpNext::WaitAndFail);
    assert_eq!(sync_time_next(29, true), SntpNext::Done);
    assert!(sync_failure_skips(1) && !sync_failure_skips(0));
}

#[test]
fn time_zones_are_read() {
    let zone = parse_timezone_body(
        br#"{"status":"success","timezone":"Asia/Shanghai","offset":28800,"query":"1.2.3.4"}"#,
    )
    .unwrap();
    assert_eq!(zone.message, None);
    assert_eq!(zone.query.as_deref(), Some("1.2.3.4"));
    assert_eq!(
        timezone_next(&zone, Some(28800)),
        TimezoneNext::Use {
            offset: 28800,
            save: false
        }
    );
    assert_eq!(
        timezone_next(&zone, None),
        TimezoneNext::Use {
            offset: 28800,
            save: true
        }
    );
    assert_eq!(
        timezone_text(&zone.timezone, zone.offset),
        "Asia/Shanghai\nUTC+8"
    );
    assert_eq!(timezone_text("x", -12_600), "x\nUTC-3");
    assert_eq!(timezone_text("x", -100), "x\nUTC+0");
    let failed =
        parse_timezone_body(br#"{"status":"fail","message":null,"timezone":"","offset":-1}"#)
            .unwrap();
    assert_eq!(timezone_next(&failed, None), TimezoneNext::Refused);
    assert!(parse_timezone_body(br#"{"status":"success"}"#).is_none());
    assert!(parse_timezone_body(b"\xff").is_none());
    assert!(parse_timezone_body(br#"["s",null,"z",1,null]"#).is_some());
    assert_eq!(timezone_attempt_text(2), "Attempt 2/3");
    assert!(timezone_retry(2) && !timezone_retry(3));
    let mut body = Vec::new();
    assert!(take_body(&mut body, &[0; 2048]));
    assert!(!take_body(&mut body, &[1]));
    assert_eq!(body.len(), 2049);
}

#[test]
fn sound_is_played_and_recorded() {
    assert_eq!(esp_result(0), Ok(()));
    assert_eq!(esp_result(-3), Err(AudioError::Code(-3)));
    assert_eq!(mic_request(0), Ok(None));
    assert_eq!(mic_request(5), Ok(Some(10)));
    assert_eq!(mic_request(1 << 30), Err(AudioError::TooLong));
    assert_eq!(mic_request(usize::MAX), Err(AudioError::LengthOverflow));
    assert_eq!(read_mic_i16(7), Ok(3));
    assert_eq!(read_mic_i16(-1), Err(AudioError::Code(-1)));
    assert_eq!(speaker_request(4), Ok(Some(4)));
    assert_eq!(speaker_request(usize::MAX), Err(AudioError::TooLong));
    assert_eq!(write_speaker_bytes(-2), Err(AudioError::Code(-2)));
    assert!(prompt_enabled(None) && prompt_enabled(Some(2)) && !prompt_enabled(Some(0)));
    assert_eq!((save_prompt_enabled(true), save_prompt_enabled(false)), (1, 0));
    assert!(Prompt::load_from_nvs(Some(vec![1])).is_none());
    assert!(Prompt::load_from_nvs(Some(vec![])).is_none());
    assert_eq!(Prompt::load_from_nvs(Some(vec![1, 2])).unwrap().pcm, vec![1, 2]);
    let mut player = PromptPlayer::start();
    assert!(player.play_async());
    assert!(!player.play_async());
    player.finished();
    assert!(player.play_async());
    let pcm = vec![0u8; 5000];
    let mut pos = 0;
    let mut parts = Vec::new();
    while let Some((start, end)) = play_pcm(&pcm, pos) {
        parts.push(end - start);
        pos = chunk_written(start, end, end - start).unwrap();
    }
    assert_eq!(parts, vec![2048, 2048, 904]);
    assert_eq!(
        chunk_written(0, 10, 9),
        Err(AudioError::ShortWrite {
            written: 9,
            expected: 10
        })
    );
}

#[test]
fn recognisers_are_kept_and_asked() {
    let config = AsrConfig::from_json(
        r#"{"model":"m","platform":"whisper","uri":"http://x","api_key":"k","y":{}}"#,
    )
    .unwrap();
    let json = config.save_to_nvs();
    assert_eq!(
        json,
        r#"{"platform":"Whisper","uri":"http://x","api_key":"k","model":"m"}"#
    );
    assert!(AsrConfig::load_from_nvs(Some(&json)).is_some());
    assert!(AsrConfig::load_from_nvs(None).is_none());
    assert!(AsrConfig::from_json(r#"["Whisper","u","k","m"]"#).is_ok());
    for bad in [
        "",
        r#"{"platform":"other","uri":"","api_key":"","model":""}"#,
        r#"{"uri":"","api_key":"","model":""}"#,
        r#"{"platform":"Whisper","uri":"","api_key":""}"#,
        r#"{"platform":"Whisper","uri":"","uri":"","api_key":"","model":""}"#,
        r#"{"platform":"Whisper","uri":"","api_key":"","model":"","x":1e999}"#,
    ] {
        assert!(AsrConfig::from_json(bad).is_err(), "{bad}");
    }
    let nested = |depth: usize| {
        format!(
            "{{\"platform\":\"Whisper\",\"uri\":\"\",\"api_key\":\"\",\"model\":\"\",\"x\":{}{}}}",
            "[".repeat(depth),
            "]".repeat(depth)
        )
    };
    let token = r#""x":{"$serde_json::private::RawValue":5}"#;
    assert!(AsrConfig::from_json(&format!(
        "{{\"platform\":\"Whisper\",\"uri\":\"\",\"api_key\":\"\",\"model\":\"\",{token}}}"
    ))
    .is_ok());
    assert_eq!(
        asr_words(br#"{"text":"a","error":{"$serde_json::private::RawValue":5}}"#),
        Some("a".to_string())
    );
    assert!(AsrConfig::from_json(&nested(126)).is_ok());
    assert!(AsrConfig::from_json(&nested(127)).is_err());
    let driver = Driver::new().unwrap();
    let request = driver.start_asr(&config);
    assert_eq!(request.uri, "http://x");
    assert_eq!(
        request.content_type,
        "multipart/form-data; boundary=----WebKitFormBoundary7MA4YWxkTrZu0gW"
    );
    assert_eq!(request.authorization.as_deref(), Some("Bearer k"));
    let head = String::from_utf8_lossy(&request.head);
    assert!(head.starts_with("------WebKitFormBoundary7MA4YWxkTrZu0gW\r\nContent-Disposition: form-data; name=\"file\"; filename=\"audio.wav\"\r\nContent-Type: audio/wav\r\n\r\nRIFF"));
    assert_eq!(
        String::from_utf8(request.tail).unwrap(),
        "\r\n------WebKitFormBoundary7MA4YWxkTrZu0gW\r\nContent-Disposition: form-data; name=\"model\"\r\n\r\nm\r\n------WebKitFormBoundary7MA4YWxkTrZu0gW--"
    );
    assert!(driver.start_whisper("u", "", "m").authorization.is_none());
    assert_eq!(driver.read(3), Err(AudioError::Unaligned));
    assert_eq!(driver.read(4), Ok(2));
}

fn capture_steps(stop_at: usize) -> Vec<CaptureStep> {
    let mut capture = Capture::new();
    let mut steps = Vec::new();
    while capture.step != CaptureStep::Finish {
        steps.push(capture.step);
        capture.done(capture.recorded == stop_at);
    }
    steps
}

#[test]
fn a_request_with_sound_goes_in_order() {
    assert_eq!(
        capture_steps(1),
        vec![
            CaptureStep::SendHead,
            CaptureStep::StartListening,
            CaptureStep::AskStop,
            CaptureStep::Record,
            CaptureStep::AskStop,
            CaptureStep::SendTail,
        ]
    );
    let steps = capture_steps(1_000);
    let count = |step| steps.iter().filter(|s| **s == step).count();
    assert_eq!(count(CaptureStep::StartListening), 1);
    assert_eq!(count(CaptureStep::AskStop), 300);
    assert_eq!(count(CaptureStep::Record), 300);
    assert_eq!(steps.last(), Some(&CaptureStep::SendTail));
    assert_eq!(steps.len(), 603);
}

#[test]
fn answers_of_recognisers_are_read() {
    assert_eq!(asr_words(br#"{"text":" hi "}"#).as_deref(), Some(" hi "));
    assert_eq!(
        asr_words(br#"{"text":"\n[0:1 --> 0:2] one\r\nplain\n[x] [y] two\n","error":{"a":1}}"#)
            .as_deref(),
        Some("\none\nplain\n[y] two")
    );
    assert_eq!(asr_words(br#"{"error":null}"#).as_deref(), Some(""));
    assert_eq!(asr_words(b"[]").as_deref(), Some(""));
    assert_eq!(asr_words(br#"["a",1]"#).as_deref(), Some("a"));
    assert_eq!(asr_words(br#"{"text":null}"#), None);
    assert_eq!(asr_words(br#"{"text":"a","text":"b"}"#), None);
    assert_eq!(asr_words(b"\xff"), None);
}

#[test]
fn wav_headers_are_exact() {
    let header = create_unlimited_wav_header(&WavConfig::default());
    let expected: Vec<u8> = [
        &b"RIFF\xff\xff\xff\x7fWAVEfmt \x10\x00\x00\x00\x01\x00\x01\x00"[..],
        &b"\x80\x3e\x00\x00\x00\x7d\x00\x00\x02\x00\x10\x00data\xff\xff\xff\xff"[..],
    ]
    .concat();
    assert_eq!(header, expected);
}

fn gif(flags: u8, table: usize) -> Vec<u8> {
    let mut data = b"GIF89a\x01\x00\x01\x00".to_vec();
    data.push(flags);
    data.extend_from_slice(&[0, 0]);
    data.extend(vec![7u8; table]);
    data
}

#[test]
fn backgrounds_are_checked() {
    assert_eq!(validate_gif(&[]), Err(GifError::Empty));
    assert_eq!(validate_gif(&vec![0; 131_073]), Err(GifError::TooLarge));
    assert_eq!(validate_gif(b"GIF88a"), Err(GifError::NotGif));
    assert_eq!(validate_gif(b"GIF87a"), Err(GifError::Invalid));
    assert_eq!(validate_gif(&gif(0, 0)), Ok(()));
    assert_eq!(validate_gif(&gif(0x80, 5)), Err(GifError::Invalid));
    assert_eq!(validate_gif(&gif(0x80, 6)), Ok(()));
    assert_eq!(validate_gif(&gif(0xf7, 767)), Err(GifError::Invalid));
    assert_eq!(validate_gif(&gif(0xf7, 768)), Ok(()));
    assert_eq!(stored_len(Some(0)), None);
    assert_eq!(stored_len(Some(131_072)), Some(131_072));
    assert_eq!(stored_len(Some(131_073)), None);
    assert_eq!(load_from_nvs(Some(gif(0, 0))), Some(gif(0, 0)));
    assert_eq!(load_from_nvs(Some(vec![1])), None);
}

#[test]
fn prompts_are_uploaded_in_packets() {
    let mut slot = None;
    assert_eq!(
        handle_audio_upload_write(&mut slot, &[6, 0, 0, 0]),
        Ok(None)
    );
    assert_eq!(handle_audio_upload_write(&mut slot, &[1, 2]), Ok(None));
    assert_eq!(handle_audio_upload_write(&mut slot, &[]), Ok(None));
    assert_eq!(
        handle_audio_upload_write(&mut slot, &[3, 4, 5, 6]),
        Ok(Some(vec![1, 2, 3, 4, 5, 6]))
    );
    assert!(slot.is_none());
    assert_eq!(
        handle_audio_upload_write(&mut slot, &[1, 2, 3]),
        Err(UploadError::NoLength)
    );
    handle_audio_upload_write(&mut slot, &[2, 0, 0, 0]).unwrap();
    assert_eq!(handle_audio_upload_write(&mut slot, &[1]), Ok(None));
    assert_eq!(
        handle_audio_upload_write(&mut slot, &[1, 2, 3]),
        Err(UploadError::Overflow)
    );
    assert_eq!(slot.as_ref().unwrap().expected_size, 2);
    assert_eq!(slot.as_ref().unwrap().data, vec![1]);
    assert_eq!(
        handle_audio_upload_write(&mut slot, &[7]),
        Ok(Some(vec![1, 7]))
    );
    let mut odd = Some(AudioUpload {
        expected_size: 3,
        data: vec![1, 2],
    });
    assert_eq!(
        handle_audio_upload_write(&mut odd, &[3]),
        Err(UploadError::Unaligned)
    );
    assert_eq!(odd.as_ref().unwrap().data, vec![1, 2, 3]);
    let mut empty = Some(AudioUpload {
        expected_size: 0,
        data: vec![],
    });
    assert_eq!(
        handle_audio_upload_write(&mut empty, &[]),
        Err(UploadError::Empty)
    );
    assert!(empty.is_some());
    assert_eq!(pcm_expected_size(&[0, 0, 0, 0]), Err(UploadError::Empty));
    assert_eq!(pcm_expected_size(&[1, 0, 0, 0]), Err(UploadError::Unaligned));
    assert_eq!(pcm_expected_size(&[2, 0, 4, 0]), Err(UploadError::TooLarge));
    assert_eq!(pcm_expected_size(&[0, 0, 4, 0]), Ok(262_144));
    assert_eq!(validate_pcm(&[]), Err(UploadError::Empty));
    assert_eq!(validate_pcm(&[1]), Err(UploadError::Unaligned));
    assert_eq!(validate_pcm(&[1, 2]), Ok(()));
}

#[test]
fn backgrounds_are_uploaded_in_packets() {
    assert_eq!(
        background_expected_size(&[1, 0, 2, 0]),
        Err(UploadError::TooLarge)
    );
    assert_eq!(
        background_expected_size(&[0, 0, 0, 0]),
        Err(UploadError::Empty)
    );
    let picture = gif(0, 0);
    let mut slot = None;
    handle_background_upload_write(&mut slot, &[13, 0, 0, 0]).unwrap();
    assert_eq!(
        handle_background_upload_write(&mut slot, &picture[..5]),
        Ok(None)
    );
    assert_eq!(
        handle_background_upload_write(&mut slot, &picture[5..]),
        Ok(Some(picture))
    );
    handle_background_upload_write(&mut slot, &[1, 0, 0, 0]).unwrap();
    assert_eq!(
        handle_background_upload_write(&mut slot, &[9, 9]),
        Err(UploadError::Overflow)
    );
    assert!(slot.as_ref().unwrap().data.is_empty());
    assert_eq!(
        handle_background_upload_write(&mut slot, &[9]),
        Err(UploadError::Gif(GifError::NotGif))
    );
    assert_eq!(slot.as_ref().unwrap().data, vec![9]);
}

#[test]
fn a_refused_packet_starts_the_upload_over() {
    let mut slot = None;
    assert_eq!(audio_packet(&mut slot, &[2, 0, 0, 0]), Ok(None));
    assert_eq!(
        audio_packet(&mut slot, &[1, 2, 3]),
        Err(UploadError::Overflow)
    );
    assert!(slot.is_none());
    assert_eq!(audio_packet(&mut slot, &[2, 0, 0, 0]), Ok(None));
    assert_eq!(audio_packet(&mut slot, &[1]), Ok(None));
    assert_eq!(slot.as_ref().unwrap().data, vec![1]);
    assert_eq!(audio_packet(&mut slot, &[2]), Ok(Some(vec![1, 2])));
    assert!(slot.is_none());

    let mut slot = None;
    background_packet(&mut slot, &[1, 0, 0, 0]).unwrap();
    assert_eq!(
        background_packet(&mut slot, &[9]),
        Err(UploadError::Gif(GifError::NotGif))
    );
    assert!(slot.is_none());
    let picture = gif(0, 0);
    background_packet(&mut slot, &[13, 0, 0, 0]).unwrap();
    assert_eq!(background_packet(&mut slot, &picture), Ok(Some(picture)));
    assert!(slot.is_none());
}

#[test]
fn the_configuration_is_changed_and_read() {
    let mut setting = Setting::load_from_nvs(None, Some("old"));
    let list: Vec<String> = (0..9)
        .map(|i| format!("{{\"ssid\":\"n{i}\",\"pass\":\"\"}}"))
        .collect();
    let payload = format!(
        "{{\"wifi_list\":[{}],\"asr_config\":{{\"platform\":\"x\",\"platform\":\"Whisper\",\"uri\":\"u\",\"api_key\":\"k\",\"model\":\"m\"}}}}",
        list.join(",")
    );
    let writes = config_write(&mut setting, payload.as_bytes());
    assert_eq!(setting.wifi_list.len(), 8);
    assert_eq!(setting.server_url, "old");
    assert_eq!(writes.len(), 2);
    match (&writes[0], &writes[1]) {
        (PatchWrite::WifiList(json), PatchWrite::AsrConfig(asr)) => {
            assert!(json.ends_with(r#"{"ssid":"n7","pass":""}]"#));
            assert_eq!(
                asr,
                r#"{"platform":"Whisper","uri":"u","api_key":"k","model":"m"}"#
            );
        }
        other => panic!("{other:?}"),
    }
    let writes = config_write(
        &mut setting,
        br#"{"server_url":"new","wifi_list":null,"asr_config":5}"#,
    );
    assert_eq!(writes.len(), 1);
    assert_eq!(setting.server_url, "new");
    assert_eq!(setting.wifi_list.len(), 8);
    let nested = |depth: usize| {
        format!(
            "{{\"server_url\":\"new\",\"asr_config\":{}{}}}",
            "[".repeat(depth),
            "]".repeat(depth)
        )
    };
    assert_eq!(config_write(&mut setting, nested(126).as_bytes()).len(), 1);
    assert!(config_write(&mut setting, nested(127).as_bytes()).is_empty());
    assert!(config_write(&mut setting, b"{").is_empty());
    assert!(config_write(&mut setting, b"\xff").is_empty());
    assert!(config_write(&mut setting, br#"{"server_url":1}"#).is_empty());
    setting.wifi_list.truncate(1);
    let config = AsrConfig::from_json(r#"["Whisper","u","k","m"]"#).unwrap();
    assert_eq!(
        config_snapshot(&setting, &Some(config), Some(12)),
        r#"{"wifi_list":[{"ssid":"n0","pass":""}],"server_url":"new","asr_config":{"api_key":"k","model":"m","platform":"Whisper","uri":"u"},"background_gif_size":12}"#
    );
    assert_eq!(
        config_snapshot(&Setting::load_from_nvs(None, None), &None, None),
        r#"{"wifi_list":[],"server_url":"","asr_config":null,"background_gif_size":null}"#
    );
    let config = AsrConfig::from_json(r#"["Whisper","u\"","k","m"]"#).unwrap();
    let snapshot = config_snapshot(&setting, &Some(config), Some(12));
    let before = format!("{:?}", setting.wifi_list);
    let writes = config_write(&mut setting, snapshot.as_bytes());
    assert_eq!(writes.len(), 3);
    assert_eq!(format!("{:?}", setting.wifi_list), before);
    assert_eq!(setting.server_url, "new");
    match &writes[2] {
        PatchWrite::AsrConfig(asr) => assert_eq!(
            asr,
            r#"{"platform":"Whisper","uri":"u\"","api_key":"k","model":"m"}"#
        ),
        other => panic!("{other:?}"),
    }
    assert_eq!(reset_write(b"RESET"), Some(BtEvent::Reset));
    assert_eq!(reset_write(b"RESET "), None);
}

#[test]
fn pins_are_bits() {
    assert!(read_exio(0b0000_0100, ExioPin::Exio3));
    assert!(!read_exio(0b0000_0100, ExioPin::Exio4));
    assert_eq!(set_exio(0b1111_0000, ExioPin::Exio1, true), 0b1111_0001);
    assert_eq!(set_exio(0b1111_0000, ExioPin::Exio8, false), 0b0111_0000);
    assert_eq!(toggle_exio(0b10, 0b11, ExioPin::Exio2), 0b01);
    assert_eq!(toggle_exio(0b00, 0b01, ExioPin::Exio2), 0b11);
}

#[test]
fn pictures_have_windows() {
    let picture = JpegBufferu16::new(408, 496);
    assert_eq!(picture.data.len(), 25_296);
    let window = picture.flush_window(100, 200);
    assert_eq!((window.start, window.end, window.rows), (81_600, 244_800, 200));
    let window = picture.flush_window(400, 200);
    assert_eq!(window.start, 296 * 408 * 2);
    let window = picture.flush_window(5, 600);
    assert_eq!((window.start, window.rows), (0, 496));
}

#[test]
fn power_is_read() {
    assert_eq!(battery_percent(100), Some(100));
    assert_eq!(battery_percent(101), None);
    assert_eq!(battery_percent(-1), None);
    assert_eq!(pmu_status(256, 0), None);
    let status = pmu_status(0x20, 0xff).unwrap();
    assert_eq!(external_power_connected(Some(status)), Some(true));
    assert_eq!(external_power_connected(pmu_status(0xdf, 0)), Some(false));
    assert_eq!(external_power_connected(None), None);
    assert_eq!(esp_err(0), Ok(()));
    assert_eq!(esp_err(5), Err(5));
}

#[test]
fn power_locks_are_held_and_let_go() {
    let mut locks = PowerLocks::new();
    let mut steps = Vec::new();
    let mut last = None;
    while let LockNext::Do(step) = locks.hold_light_sleep_lock(last) {
        steps.push(step);
        last = Some((step, 0));
    }
    assert_eq!(
        steps,
        vec![
            LockStep::Create(PowerLock::Display),
            LockStep::Acquire(PowerLock::Display),
            LockStep::Create(PowerLock::DisplayApb),
            LockStep::Acquire(PowerLock::DisplayApb)
        ]
    );
    assert!(locks.held);
    assert_eq!(locks.hold_light_sleep_lock(None), LockNext::Done);
    assert_eq!(
        locks.release_light_sleep_lock(pmu_status(0x20, 0), None),
        LockNext::Done
    );
    assert!(locks.held);
    let first = locks.release_light_sleep_lock(None, None);
    assert_eq!(first, LockNext::Do(LockStep::Release(PowerLock::DisplayApb)));
    let second =
        locks.release_light_sleep_lock(None, Some((LockStep::Release(PowerLock::DisplayApb), 9)));
    assert_eq!(second, LockNext::Do(LockStep::Release(PowerLock::Display)));
    let third =
        locks.release_light_sleep_lock(None, Some((LockStep::Release(PowerLock::Display), 8)));
    assert_eq!(
        third,
        LockNext::Failed(LockStep::Release(PowerLock::DisplayApb), 9)
    );
    assert!(locks.held);
    locks.held = false;
    locks.hold_light_sleep_lock(None);
    assert_eq!(
        locks.hold_light_sleep_lock(Some((LockStep::Acquire(PowerLock::DisplayApb), 4))),
        LockNext::Do(LockStep::Undo(PowerLock::Display))
    );
    assert!(!locks.held);
    assert_eq!(
        locks.hold_light_sleep_lock(Some((LockStep::Undo(PowerLock::Display), 4))),
        LockNext::Failed(LockStep::Acquire(PowerLock::DisplayApb), 4)
    );
}

#[test]
fn updates_follow_events() {
    assert!(matches!(ota_task(Some(OtaEvent::Complete)), OtaNext::Wait));
    assert!(matches!(ota_task(None), OtaNext::Idle));
    assert!(matches!(
        ota_task(Some(OtaEvent::DownloadLatest)),
        OtaNext::StartDownload
    ));
    match ota_task(Some(OtaEvent::DataChunk(vec![1]))) {
        OtaNext::StartUpload(data) => assert_eq!(data, vec![1]),
        other => panic!("{other:?}"),
    }
    assert!(matches!(
        ota_write_upload(Some(OtaEvent::DownloadLatest)),
        UploadNext::Wait
    ));
    assert!(matches!(ota_write_upload(None), UploadNext::Complete));
    assert!(matches!(
        ota_write_upload(Some(OtaEvent::DataChunk(vec![2]))),
        UploadNext::Write(_)
    ));
    assert_eq!(download_size(Some("1234")), Some(1234));
    assert_eq!(download_size(Some("12x")), None);
    assert_eq!(download_size(Some("99999999999999999999")), None);
    assert_eq!(download_size(None), None);
    assert!(ota_download_latest(200) && !ota_download_latest(302));
    assert_eq!(upload_answer(10), "OTA received: 10 bytes");
    assert_eq!(
        ota_page("<a href={{OTA_DOWNLOAD_URL}}>{{OTA_DOWNLOAD_URL}}</a>{{", "u"),
        "<a href=u>u</a>{{"
    );
    assert_eq!(ota_menu(1), OtaMenuChoice::Restart);
    assert_eq!(ota_menu_items()[0].0, "Update release");
}

#[test]
fn starting_up() {
    assert_eq!(wait_boot_press(None, true), BootWait::Edge);
    assert_eq!(wait_boot_press(Some(BootWait::Edge), true), BootWait::Settle);
    assert_eq!(wait_boot_press(Some(BootWait::Settle), false), BootWait::Edge);
    assert_eq!(wait_boot_press(Some(BootWait::Settle), true), BootWait::Pressed);
    assert_eq!(BOOT_SETTLE_MS, 20);
    assert_eq!(main_menu_mode(MainMenuSelection::Clock), BootMode::Clock);
    assert_eq!(setting_menu_mode(SettingMenuSelection::Ble), BootMode::Provision);
    assert_eq!(
        wifi_sta_mac_client_id(&[0, 0x1f, 0xab, 0xcd, 0x0e, 0xff]),
        "watch-001fabcd0eff"
    );
}
