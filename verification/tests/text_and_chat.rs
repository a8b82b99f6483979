use noalbs::chat::youtube::chat_message;
use noalbs::chat::youtube::message_text;
use noalbs::chat::youtube::permission_of;
use noalbs::chat::youtube::ChatLine;
use noalbs::chat::youtube::MessagePart;
use noalbs::chat::ChatLanguage;
use noalbs::chat::ChatMessage;
use noalbs::chat::ChatPlatform;
use noalbs::chat::Command;
use noalbs::chat::Permission;
use noalbs::switcher::Level;
use noalbs::switcher::SwitchReason;
use noalbs::switcher::SwitchType;
use noalbs::text::chars_of;
use noalbs::text::contains;
use noalbs::text::parse_port;
use noalbs::text::same_text;
use noalbs::text::split_host_port;

#[test]
fn a_port_is_an_optional_plus_and_digits_up_to_65535() {
    assert_eq!(parse_port("0"), Some(0));
    assert_eq!(parse_port("4455"), Some(4455));
    assert_eq!(parse_port("+4455"), Some(4455));
    assert_eq!(parse_port("0000000000000000000000080"), Some(80));
    assert_eq!(parse_port("65535"), Some(65535));
    assert_eq!(parse_port("65536"), None);
    assert_eq!(parse_port("99999999999999999999999"), None);
    assert_eq!(parse_port(""), None);
    assert_eq!(parse_port("+"), None);
    assert_eq!(parse_port("++1"), None);
    assert_eq!(parse_port("-1"), None);
    assert_eq!(parse_port("12a"), None);
    assert_eq!(parse_port("1 "), None);
    assert_eq!(parse_port("٣"), None);
    for text in ["0", "+7", "65535", "65536", "", "+", "08", "1e3", "7777777", "+-1"] {
        assert_eq!(parse_port(text), text.parse::<u16>().ok(), "{}", text);
    }
}

#[test]
fn an_address_is_split_at_its_first_colon() {
    assert_eq!(split_host_port("localhost:4455"), Some(("localhost".to_string(), 4455)));
    assert_eq!(split_host_port("höst:1"), Some(("höst".to_string(), 1)));
    assert_eq!(split_host_port("a:2:3"), Some(("a".to_string(), 2)));
    assert_eq!(split_host_port(":2"), Some(("".to_string(), 2)));
    assert_eq!(split_host_port("a:"), None);
    assert_eq!(split_host_port("a::2"), None);
    assert_eq!(split_host_port("a"), None);
    assert_eq!(split_host_port(""), None);
}

#[test]
fn a_text_is_found_where_it_occurs() {
    assert!(contains("https://eu.belabox.net/stats", "belabox.net"));
    assert!(contains("belabox.net", "belabox.net"));
    assert!(contains("xbelabox.net", "belabox.net"));
    assert!(!contains("belabox.ne", "belabox.net"));
    assert!(!contains("belabox_net", "belabox.net"));
    assert!(!contains("", "belabox.net"));
    assert!(contains("abc", ""));
    assert!(contains("", ""));
    assert!(contains("aab", "ab"));
    assert!(contains("ünï", "nï"));
    assert!(same_text("ab", "ab"));
    assert!(!same_text("ab", "aB"));
    assert!(!same_text("ab", "abc"));
    assert_eq!(chars_of("aé"), vec!['a', 'é']);
}

#[test]
fn a_command_is_known_by_its_lower_case_name() {
    let known = [
        ("alias", Command::Alias),
        ("autostop", Command::Autostop),
        ("bitrate", Command::Bitrate),
        ("fix", Command::Fix),
        ("noalbs", Command::Noalbs),
        ("notify", Command::Notify),
        ("obsinfo", Command::Obsinfo),
        ("refresh", Command::Refresh),
        ("sourceinfo", Command::Sourceinfo),
        ("start", Command::Start),
        ("stop", Command::Stop),
        ("switch", Command::Switch),
        ("trigger", Command::Trigger),
        ("otrigger", Command::Otrigger),
        ("rtrigger", Command::Rtrigger),
        ("version", Command::Version),
    ];
    for (i, (name, command)) in known.iter().enumerate() {
        assert_eq!(Command::from_name(name), *command);
        assert_eq!(command.clone(), *command);
        for (j, (_, other)) in known.iter().enumerate() {
            assert_eq!(command.same(other), i == j);
        }
        assert!(!command.same(&Command::Unknown(name.to_string())));
    }
    assert_eq!(Command::from_name("Fix"), Command::Unknown("Fix".to_string()));
    assert_eq!(Command::from_name(""), Command::Unknown("".to_string()));
    assert_eq!(Command::from_name("fix "), Command::Unknown("fix ".to_string()));
    assert!(Command::Unknown("a".to_string()).same(&Command::Unknown("a".to_string())));
    assert!(!Command::Unknown("a".to_string()).same(&Command::Unknown("b".to_string())));
}

#[test]
fn a_language_is_read_from_its_code_in_either_case() {
    let known = [
        ("de", ChatLanguage::DE),
        ("dk", ChatLanguage::DK),
        ("en", ChatLanguage::EN),
        ("es", ChatLanguage::ES),
        ("fr", ChatLanguage::FR),
        ("it", ChatLanguage::IT),
        ("nb", ChatLanguage::NB),
        ("nl", ChatLanguage::NL),
        ("pl", ChatLanguage::PL),
        ("ptbr", ChatLanguage::PTBR),
        ("ru", ChatLanguage::RU),
        ("sv", ChatLanguage::SV),
        ("tr", ChatLanguage::TR),
        ("zhtw", ChatLanguage::ZHTW),
    ];
    for (code, language) in known {
        assert_eq!(ChatLanguage::parse(code), Some(language));
        assert_eq!(ChatLanguage::parse(&code.to_uppercase()), Some(language));
    }
    assert_eq!(ChatLanguage::parse("En"), Some(ChatLanguage::EN));
    assert_eq!(ChatLanguage::parse("english"), None);
    assert_eq!(ChatLanguage::parse(""), None);
    assert_eq!(ChatLanguage::parse(" en"), None);
}

#[test]
fn a_chat_line_becomes_a_message() {
    let line = ChatLine {
        author: Some("Viewer".to_string()),
        message: vec![
            MessagePart::Text("!switch ".to_string()),
            MessagePart::Emoji,
            MessagePart::Text("low".to_string()),
            MessagePart::Text("".to_string()),
        ],
        is_owner: false,
        is_moderator: true,
    };
    assert_eq!(
        chat_message(&line, "UC123"),
        ChatMessage {
            platform: ChatPlatform::Youtube,
            permission: Permission::Mod,
            sender: "Viewer".to_string(),
            message: "!switch low".to_string(),
            channel: "UC123".to_string(),
        }
    );
    let nameless =
        ChatLine { author: None, message: Vec::new(), is_owner: true, is_moderator: true };
    assert_eq!(
        chat_message(&nameless, ""),
        ChatMessage {
            platform: ChatPlatform::Youtube,
            permission: Permission::Admin,
            sender: "Unknown".to_string(),
            message: "".to_string(),
            channel: "".to_string(),
        }
    );
    assert_eq!(message_text(&vec![MessagePart::Emoji, MessagePart::Emoji]), "");
    assert_eq!(permission_of(true, false), Permission::Admin);
    assert_eq!(permission_of(true, true), Permission::Admin);
    assert_eq!(permission_of(false, true), Permission::Mod);
    assert_eq!(permission_of(false, false), Permission::Public);
}

#[test]
fn a_class_has_its_kind_of_scene_and_its_reason() {
    assert_eq!(SwitchType::Normal.scene_level(), Level::Normal);
    assert_eq!(SwitchType::Low.scene_level(), Level::Low);
    assert_eq!(SwitchType::Rtt.scene_level(), Level::Low);
    assert_eq!(SwitchType::Offline.scene_level(), Level::Offline);
    assert_eq!(SwitchType::Normal.as_reason(), SwitchReason::Normal);
    assert_eq!(SwitchType::Low.as_reason(), SwitchReason::Low);
    assert_eq!(SwitchType::Rtt.as_reason(), SwitchReason::Rtt);
    assert_eq!(SwitchType::Offline.as_reason(), SwitchReason::Offline);
    assert_eq!(Level::Normal.rank_of(), 0);
    assert_eq!(Level::Low.rank_of(), 1);
    assert_eq!(Level::Offline.rank_of(), 2);
}
