use channel_machine::common::{ApplicationTab, ChannelInfo, UserInfo};

#[test]
fn value_as_text_renders_decimal() {
    let c = ChannelInfo { integer_value: 7, is_suspicious: false };
    assert_eq!(c.value_as_text(), "7");
    let c2 = ChannelInfo { integer_value: 100, is_suspicious: true };
    assert_eq!(c2.value_as_text(), "100");
    let c3 = ChannelInfo { integer_value: 0, is_suspicious: false };
    assert_eq!(c3.value_as_text(), "0");
    let c4 = ChannelInfo { integer_value: u32::MAX, is_suspicious: true };
    assert_eq!(c4.value_as_text(), "4294967295");
}

#[test]
fn suspicious_as_text_renders_yes_or_no() {
    let yes = ChannelInfo { integer_value: 80, is_suspicious: true };
    assert_eq!(yes.suspicious_as_text(), "Yes");
    let no = ChannelInfo { integer_value: 10, is_suspicious: false };
    assert_eq!(no.suspicious_as_text(), "No");
}

#[test]
fn application_tab_defaults_to_home() {
    assert_eq!(ApplicationTab::default(), ApplicationTab::Home);
}

#[test]
fn user_info_round_trips_its_fields() {
    let info = UserInfo { name: String::from("Kim"), age: 30 };
    let copy = info.clone();
    assert_eq!(info, copy);
    assert_eq!(copy.name, "Kim");
    assert_eq!(copy.age, 30);
}
