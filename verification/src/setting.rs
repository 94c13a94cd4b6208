//! The configuration that is kept on the device: the WiFi networks it knows, in the order in
//! which they are tried, and the message broker.
use crate::json::{
    array_text, json_elements, json_string, json_text, member, member_views, object_members,
    object_text, read_array, read_object, read_string_member, stands_alone, string_json,
    string_member, string_value, views, write_array, write_object,
};
use vstd::prelude::*;

verus! {

/// The name under which the networks are kept.
pub const WIFI_LIST_KEY: &'static str = "wifi_list";
/// The most networks that are kept.
pub const MAX_WIFI_CREDS: usize = 8;

/// How a WiFi network is joined.
#[derive(Debug, Clone)]
pub struct WifiCred {
    pub ssid: String,
    pub pass: String,
}

/// A network's name and password.
pub struct CredView {
    pub ssid: Seq<char>,
    pub pass: Seq<char>,
}

impl View for WifiCred {
    type V = CredView;

    open spec fn view(&self) -> CredView {
        CredView { ssid: self.ssid@, pass: self.pass@ }
    }
}

/// The names and passwords of some networks.
pub open spec fn cred_views(list: Seq<WifiCred>) -> Seq<CredView> {
    list.map_values(|c: WifiCred| c@)
}

#[derive(Debug, Clone)]
pub struct Setting {
    /// The networks that are known, the first one tried first.
    pub wifi_list: Vec<WifiCred>,
    /// Where the message broker is found.
    pub server_url: String,
}

/// The members of a network as JSON.
pub open spec fn cred_members(cred: CredView) -> Seq<(Seq<char>, Seq<char>)> {
    seq![("ssid"@, json_text(cred.ssid)), ("pass"@, json_text(cred.pass))]
}

/// The JSON text of a network.
pub open spec fn cred_json(cred: CredView) -> Seq<char> {
    object_text(cred_members(cred))
}

/// The JSON text of some networks.
pub open spec fn wifi_list_json(list: Seq<CredView>) -> Seq<char> {
    array_text(list.map_values(|c: CredView| cred_json(c)))
}

/// The network that a JSON text stands for: an object with its name and password, or an array
/// of the two.
pub open spec fn cred_of_json(text: Seq<char>) -> Option<CredView> {
    match object_members(text) {
        Some(members) => match (string_member(members, "ssid"@), string_member(members, "pass"@)) {
            (Some(ssid), Some(pass)) => Some(CredView { ssid, pass }),
            _ => None,
        },
        None => match json_elements(text) {
            Some(elements) => if elements.len() == 2 {
                match (json_string(elements[0]), json_string(elements[1])) {
                    (Some(ssid), Some(pass)) => Some(CredView { ssid, pass }),
                    _ => None,
                }
            } else {
                None
            },
            None => None,
        },
    }
}

/// The networks that the elements of a JSON array stand for, if each stands for one.
pub open spec fn creds_of_elements(elements: Seq<Seq<char>>) -> Option<Seq<CredView>>
    decreases elements.len(),
{
    if elements.len() == 0 {
        Some(Seq::empty())
    } else {
        match (creds_of_elements(elements.drop_last()), cred_of_json(elements.last())) {
            (Some(list), Some(cred)) => Some(list.push(cred)),
            _ => None,
        }
    }
}

/// The networks that a JSON text stands for.
pub open spec fn wifi_list_of_json(text: Seq<char>) -> Option<Seq<CredView>> {
    match json_elements(text) {
        Some(elements) => creds_of_elements(elements),
        None => None,
    }
}

fn read_cred(text: &str) -> (r: Option<WifiCred>)
    ensures
        match r {
            Some(cred) => cred_of_json(text@) == Some(cred@),
            None => cred_of_json(text@) is None,
        },
{
    match read_object(text) {
        Some(members) => {
            let ssid = match read_string_member(&members, "ssid") {
                Some(s) => s,
                None => return None,
            };
            let pass = match read_string_member(&members, "pass") {
                Some(s) => s,
                None => return None,
            };
            Some(WifiCred { ssid, pass })
        },
        None => match read_array(text) {
            Some(elements) => {
                if elements.len() != 2 {
                    return None;
                }
                assert(views(elements@)[0] == elements@[0]@);
                assert(views(elements@)[1] == elements@[1]@);
                let ssid = match string_value(elements[0].as_str()) {
                    Some(s) => s,
                    None => return None,
                };
                let pass = match string_value(elements[1].as_str()) {
                    Some(s) => s,
                    None => return None,
                };
                Some(WifiCred { ssid, pass })
            },
            None => None,
        },
    }
}

proof fn lemma_bad_element(elements: Seq<Seq<char>>, i: int)
    requires
        0 <= i < elements.len(),
        cred_of_json(elements[i]) is None,
    ensures
        creds_of_elements(elements) is None,
    decreases elements.len(),
{
    if i < elements.len() - 1 {
        lemma_bad_element(elements.drop_last(), i);
    }
}

/// Reads the networks that a JSON text stands for.
pub fn read_wifi_list(text: &str) -> (r: Option<Vec<WifiCred>>)
    ensures
        match r {
            Some(list) => wifi_list_of_json(text@) == Some(cred_views(list@)),
            None => wifi_list_of_json(text@) is None,
        },
{
    let elements = match read_array(text) {
        Some(elements) => elements,
        None => return None,
    };
    let ghost all = views(elements@);
    let mut list: Vec<WifiCred> = Vec::new();
    let mut i: usize = 0;
    assert(all.take(0) =~= Seq::empty());
    assert(cred_views(list@) =~= Seq::empty());
    while i < elements.len()
        invariant
            i <= elements@.len(),
            all == views(elements@),
            json_elements(text@) == Some(all),
            creds_of_elements(all.take(i as int)) == Some(cred_views(list@)),
        decreases elements@.len() - i,
    {
        assert(all.take(i + 1).drop_last() =~= all.take(i as int));
        assert(all.take(i + 1).last() == elements@[i as int]@);
        match read_cred(elements[i].as_str()) {
            Some(cred) => {
                let ghost before = cred_views(list@);
                list.push(cred);
                assert(cred_views(list@) =~= before.push(cred@));
            },
            None => {
                proof {
                    lemma_bad_element(all, i as int);
                }
                return None;
            },
        }
        i = i + 1;
    }
    assert(all.take(i as int) =~= all);
    Some(list)
}

fn write_cred(cred: &WifiCred) -> (r: String)
    ensures
        r@ == cred_json(cred@),
        stands_alone(r@),
        cred_of_json(r@) == Some(cred@),
{
    let mut members: Vec<(String, String)> = Vec::new();
    members.push(("ssid".to_string(), string_json(cred.ssid.as_str())));
    members.push(("pass".to_string(), string_json(cred.pass.as_str())));
    proof {
        let all = cred_members(cred@);
        assert(member_views(members@) =~= all);
        reveal_strlit("ssid");
        reveal_strlit("pass");
        assert("ssid"@[0] != "pass"@[0]);
        assert(all.drop_last() =~= seq![all[0]]);
        assert(all.drop_last().drop_last() =~= Seq::empty());
        reveal_with_fuel(member, 4);
    }
    match write_object(&members) {
        Some(text) => text,
        None => String::new(),
    }
}

/// The networks of the configuration, by what is kept of them.
pub open spec fn kept_networks(kept: Option<Seq<char>>) -> Seq<CredView> {
    match kept {
        Some(text) => match wifi_list_of_json(text) {
            Some(list) => list,
            None => Seq::empty(),
        },
        None => Seq::empty(),
    }
}

/// Whether the device has to be set up.
pub open spec fn needs_set_up(wifi_list: Seq<CredView>, server_url: Seq<char>) -> bool {
    wifi_list.len() == 0 || server_url.len() == 0
}

impl Setting {
    /// The networks as the JSON text that is kept, which reads back as the same networks.
    pub fn save_wifi_list(list: &[WifiCred]) -> (r: String)
        ensures
            r@ == wifi_list_json(cred_views(list@)),
            stands_alone(r@),
            wifi_list_of_json(r@) == Some(cred_views(list@)),
    {
        let ghost all = cred_views(list@);
        let ghost texts = all.map_values(|c: CredView| cred_json(c));
        let mut elements: Vec<String> = Vec::new();
        let mut i: usize = 0;
        assert(texts.take(0) =~= Seq::empty());
        assert(all.take(0) =~= Seq::empty());
        assert(views(elements@) =~= Seq::empty());
        while i < list.len()
            invariant
                i <= list@.len(),
                all == cred_views(list@),
                texts == all.map_values(|c: CredView| cred_json(c)),
                elements@.len() == i,
                views(elements@) == texts.take(i as int),
                forall|k: int|
                    0 <= k < i ==> stands_alone((#[trigger] elements@[k])@),
                creds_of_elements(texts.take(i as int)) == Some(all.take(i as int)),
            decreases list@.len() - i,
        {
            let text = write_cred(&list[i]);
            assert(texts.take(i + 1).drop_last() =~= texts.take(i as int));
            assert(texts.take(i + 1).last() == text@);
            assert(all.take(i + 1) =~= all.take(i as int).push(list@[i as int]@));
            elements.push(text);
            assert(views(elements@) =~= texts.take(i + 1));
            i = i + 1;
        }
        assert(texts.take(i as int) =~= texts);
        assert(all.take(i as int) =~= all);
        match write_array(&elements) {
            Some(text) => text,
            None => String::new(),
        }
    }

    /// The configuration from what is kept of it: a list of networks that is missing or
    /// cannot be read is empty, a missing address too.
    pub fn load_from_nvs(wifi_list: Option<&str>, server_url: Option<&str>) -> (r: Self)
        ensures
            cred_views(r.wifi_list@) == kept_networks(
                match wifi_list {
                    Some(text) => Some(text@),
                    None => None,
                },
            ),
            r.server_url@ == (match server_url {
                Some(url) => url@,
                None => Seq::empty(),
            }),
    {
        let list = match wifi_list {
            Some(text) => match read_wifi_list(text) {
                Some(list) => list,
                None => Vec::new(),
            },
            None => Vec::new(),
        };
        assert(list@.len() == 0 ==> cred_views(list@) =~= Seq::empty());
        let url = match server_url {
            Some(url) => url.to_string(),
            None => String::new(),
        };
        assert(url@.len() == 0 ==> url@ =~= Seq::empty());
        Setting { wifi_list: list, server_url: url }
    }

    /// Whether the device has to be set up: it knows no network, or no broker.
    pub fn need_init(&self) -> (r: bool)
        ensures
            r == needs_set_up(cred_views(self.wifi_list@), self.server_url@),
    {
        self.wifi_list.is_empty() || self.server_url.as_str().is_empty()
    }
}

/// A network is read by its members' names, whichever comes first.
pub proof fn law_network_is_read_by_its_names(text: Seq<char>, ssid: Seq<char>, pass: Seq<char>)
    requires
        json_string(ssid) is Some,
        json_string(pass) is Some,
        object_members(text) == Some(seq![("ssid"@, ssid), ("pass"@, pass)]) || object_members(text)
            == Some(seq![("pass"@, pass), ("ssid"@, ssid)]),
    ensures
        cred_of_json(text) == Some(
            CredView { ssid: json_string(ssid)->0, pass: json_string(pass)->0 },
        ),
{
    reveal_strlit("ssid");
    reveal_strlit("pass");
    assert("ssid"@[0] == 's' && "pass"@[0] == 'p');
    let m = object_members(text)->0;
    assert(m.drop_last() =~= seq![m[0]]);
    assert(m.drop_last().drop_last() =~= Seq::<(Seq<char>, Seq<char>)>::empty());
    reveal_with_fuel(member, 4);
}

/// The networks of a list are read one by one and in their order; one that cannot be read makes
/// the list unreadable.
pub proof fn law_networks_are_read_in_order(elements: Seq<Seq<char>>)
    ensures
        creds_of_elements(elements) matches Some(list) ==> {
            &&& list.len() == elements.len()
            &&& forall|i: int|
                0 <= i < list.len() ==> cred_of_json(#[trigger] elements[i]) == Some(list[i])
        },
        (forall|i: int| 0 <= i < elements.len() ==> cred_of_json(#[trigger] elements[i]) is Some)
            ==> creds_of_elements(elements) is Some,
    decreases elements.len(),
{
    if elements.len() > 0 {
        let init = elements.drop_last();
        law_networks_are_read_in_order(init);
        assert(elements.last() == elements[elements.len() - 1]);
        assert forall|i: int| 0 <= i < init.len() implies init[i] == elements[i] by {}
        match creds_of_elements(elements) {
            Some(list) => {
                let before = creds_of_elements(init)->0;
                assert forall|i: int| 0 <= i < list.len() implies cred_of_json(
                    #[trigger] elements[i],
                ) == Some(list[i]) by {
                    if i < init.len() {
                        assert(init[i] == elements[i]);
                        assert(list[i] == before[i]);
                    }
                }
            },
            None => {
                if forall|i: int|
                    0 <= i < elements.len() ==> cred_of_json(#[trigger] elements[i]) is Some {
                    assert forall|i: int| 0 <= i < init.len() implies cred_of_json(
                        #[trigger] init[i],
                    ) is Some by {
                        assert(cred_of_json(elements[i]) is Some);
                    }
                }
            },
        }
    }
}

/// Networks that are kept are the ones that are read again; the device has to be set up exactly
/// until it knows a network and a broker.
pub proof fn law_kept_networks_are_read_again(
    text: Seq<char>,
    list: Seq<CredView>,
    server_url: Seq<char>,
)
    requires
        wifi_list_of_json(text) == Some(list),
    ensures
        kept_networks(Some(text)) == list,
        kept_networks(None).len() == 0,
        !needs_set_up(kept_networks(Some(text)), server_url) <==> list.len() > 0
            && server_url.len() > 0,
{
}

} // verus!
