//! Matrix identifiers.

use vstd::prelude::*;
use vstd::utf8::encode_utf8;

use crate::errors::{foreign_client_error, ClientError, ForeignError, ForeignText};
use crate::text::texts;

verus! {

/// Why a text is not an event ID: what `ruma::EventId::parse` reports of it, or nothing where the text is
/// accepted.
pub uninterp spec fn event_id_problem(text: Seq<char>) -> Option<ForeignText>;

/// `ruma::EventId::parse`: it either keeps the text as it is, or reports one problem, which depends on
/// the text alone.
#[verifier::external_body]
fn ruma_event_id(text: &str) -> (r: Result<String, ForeignError>)
    ensures
        match r {
            Ok(kept) => kept@ == text@ && event_id_problem(text@) is None,
            Err(error) => event_id_problem(text@) == Some(error@),
        },
{
    match ruma::EventId::parse(text) {
        Ok(id) => Ok(id.to_string()),
        Err(error) => Err(ForeignError { message: error.to_string(), debug: format!("{error:?}") }),
    }
}

/// A text that was accepted as an event ID, and would be accepted again.
#[derive(Debug)]
pub struct EventId {
    text: String,
}

impl View for EventId {
    type V = Seq<char>;

    closed spec fn view(&self) -> Seq<char> {
        self.text@
    }
}

impl EventId {
    #[verifier::type_invariant]
    spec fn accepted(self) -> bool {
        event_id_problem(self.text@) is None
    }

    /// Accepts a text, or says why not.
    pub fn parse(text: &str) -> (r: Result<EventId, ForeignError>)
        ensures
            match r {
                Ok(id) => id@ == text@ && event_id_problem(text@) is None,
                Err(error) => event_id_problem(text@) == Some(error@),
            },
    {
        match ruma_event_id(text) {
            Ok(text) => Ok(EventId { text }),
            Err(error) => Err(error),
        }
    }

    /// Accepts a text that a client sent, or refuses the client's request.
    pub fn request(text: &str) -> (r: Result<EventId, ClientError>)
        ensures
            match r {
                Ok(id) => id@ == text@ && event_id_problem(text@) is None,
                Err(error) => event_id_problem(text@) matches Some(problem) && error@
                    == foreign_client_error(problem),
            },
    {
        match EventId::parse(text) {
            Ok(id) => Ok(id),
            Err(error) => Err(ClientError::from_err(error)),
        }
    }

    /// The identifier's text.
    pub fn as_str(&self) -> (r: &str)
        ensures
            r@ == self@,
            event_id_problem(r@) is None,
    {
        proof {
            use_type_invariant(self);
        }
        self.text.as_str()
    }

    /// The text that is handed out.
    pub closed spec fn string(self) -> String {
        self.text
    }

    /// Hands the identifier's text out.
    pub fn into_string(self) -> (r: String)
        ensures
            r@ == self@,
            r == self.string(),
            event_id_problem(r@) is None,
    {
        proof {
            use_type_invariant(&self);
        }
        self.text
    }
}

pub(crate) proof fn lemma_event_id_string(event_id: EventId)
    ensures
        event_id.string()@ == event_id@,
{
}

/// Why a text is not a user ID: what `ruma::UserId::parse` reports of it, or nothing where the text is
/// accepted.
pub uninterp spec fn user_id_problem(text: Seq<char>) -> Option<ForeignText>;

/// `ruma::UserId::parse`: it either keeps the text as it is, or reports one problem, which depends on
/// the text alone.
#[verifier::external_body]
fn ruma_user_id(text: &str) -> (r: Result<String, ForeignError>)
    ensures
        match r {
            Ok(kept) => kept@ == text@ && user_id_problem(text@) is None,
            Err(error) => user_id_problem(text@) == Some(error@),
        },
{
    match ruma::UserId::parse(text) {
        Ok(id) => Ok(id.to_string()),
        Err(error) => Err(ForeignError { message: error.to_string(), debug: format!("{error:?}") }),
    }
}

/// A text that was accepted as a user ID.
#[derive(Debug)]
pub struct UserId {
    text: String,
}

impl View for UserId {
    type V = Seq<char>;

    closed spec fn view(&self) -> Seq<char> {
        self.text@
    }
}

impl UserId {
    /// Accepts a text, or says why not.
    pub fn parse(text: &str) -> (r: Result<UserId, ForeignError>)
        ensures
            match r {
                Ok(id) => id@ == text@ && user_id_problem(text@) is None,
                Err(error) => user_id_problem(text@) == Some(error@),
            },
    {
        match ruma_user_id(text) {
            Ok(text) => Ok(UserId { text }),
            Err(error) => Err(error),
        }
    }

    /// Accepts a text that a client sent, or refuses the client's request.
    pub fn request(text: &str) -> (r: Result<UserId, ClientError>)
        ensures
            match r {
                Ok(id) => id@ == text@ && user_id_problem(text@) is None,
                Err(error) => user_id_problem(text@) matches Some(problem) && error@
                    == foreign_client_error(problem),
            },
    {
        match UserId::parse(text) {
            Ok(id) => Ok(id),
            Err(error) => Err(ClientError::from_err(error)),
        }
    }

    /// The identifier's text.
    pub fn as_str(&self) -> (r: &str)
        ensures
            r@ == self@,
    {
        self.text.as_str()
    }

    /// Hands the identifier's text out.
    pub fn into_string(self) -> (r: String)
        ensures
            r@ == self@,
    {
        self.text
    }
}

/// Why a text is not a room alias: what `ruma::RoomAliasId::parse` reports of it, or nothing where the text is
/// accepted.
pub uninterp spec fn room_alias_id_problem(text: Seq<char>) -> Option<ForeignText>;

/// `ruma::RoomAliasId::parse`: it either keeps the text as it is, or reports one problem, which depends on
/// the text alone.
#[verifier::external_body]
fn ruma_room_alias_id(text: &str) -> (r: Result<String, ForeignError>)
    ensures
        match r {
            Ok(kept) => kept@ == text@ && room_alias_id_problem(text@) is None,
            Err(error) => room_alias_id_problem(text@) == Some(error@),
        },
{
    match ruma::RoomAliasId::parse(text) {
        Ok(id) => Ok(id.to_string()),
        Err(error) => Err(ForeignError { message: error.to_string(), debug: format!("{error:?}") }),
    }
}

/// A text that was accepted as a room alias.
#[derive(Debug)]
pub struct RoomAliasId {
    text: String,
}

impl View for RoomAliasId {
    type V = Seq<char>;

    closed spec fn view(&self) -> Seq<char> {
        self.text@
    }
}

impl RoomAliasId {
    /// Accepts a text, or says why not.
    pub fn parse(text: &str) -> (r: Result<RoomAliasId, ForeignError>)
        ensures
            match r {
                Ok(id) => id@ == text@ && room_alias_id_problem(text@) is None,
                Err(error) => room_alias_id_problem(text@) == Some(error@),
            },
    {
        match ruma_room_alias_id(text) {
            Ok(text) => Ok(RoomAliasId { text }),
            Err(error) => Err(error),
        }
    }

    /// Accepts a text that a client sent, or refuses the client's request.
    pub fn request(text: &str) -> (r: Result<RoomAliasId, ClientError>)
        ensures
            match r {
                Ok(id) => id@ == text@ && room_alias_id_problem(text@) is None,
                Err(error) => room_alias_id_problem(text@) matches Some(problem) && error@
                    == foreign_client_error(problem),
            },
    {
        match RoomAliasId::parse(text) {
            Ok(id) => Ok(id),
            Err(error) => Err(ClientError::from_err(error)),
        }
    }

    /// The identifier's text.
    pub fn as_str(&self) -> (r: &str)
        ensures
            r@ == self@,
    {
        self.text.as_str()
    }

    /// Hands the identifier's text out.
    pub fn into_string(self) -> (r: String)
        ensures
            r@ == self@,
    {
        self.text
    }
}

/// Why a text is not a server name: what `ruma::ServerName::parse` reports of it, or nothing where the text is
/// accepted.
pub uninterp spec fn server_name_problem(text: Seq<char>) -> Option<ForeignText>;

/// `ruma::ServerName::parse`: it either keeps the text as it is, or reports one problem, which depends on
/// the text alone.
#[verifier::external_body]
fn ruma_server_name(text: &str) -> (r: Result<String, ForeignError>)
    ensures
        match r {
            Ok(kept) => kept@ == text@ && server_name_problem(text@) is None,
            Err(error) => server_name_problem(text@) == Some(error@),
        },
{
    match ruma::ServerName::parse(text) {
        Ok(id) => Ok(id.to_string()),
        Err(error) => Err(ForeignError { message: error.to_string(), debug: format!("{error:?}") }),
    }
}

/// A text that was accepted as a server name.
#[derive(Debug)]
pub struct ServerName {
    text: String,
}

impl View for ServerName {
    type V = Seq<char>;

    closed spec fn view(&self) -> Seq<char> {
        self.text@
    }
}

impl ServerName {
    /// Accepts a text, or says why not.
    pub fn parse(text: &str) -> (r: Result<ServerName, ForeignError>)
        ensures
            match r {
                Ok(id) => id@ == text@ && server_name_problem(text@) is None,
                Err(error) => server_name_problem(text@) == Some(error@),
            },
    {
        match ruma_server_name(text) {
            Ok(text) => Ok(ServerName { text }),
            Err(error) => Err(error),
        }
    }

    /// Accepts a text that a client sent, or refuses the client's request.
    pub fn request(text: &str) -> (r: Result<ServerName, ClientError>)
        ensures
            match r {
                Ok(id) => id@ == text@ && server_name_problem(text@) is None,
                Err(error) => server_name_problem(text@) matches Some(problem) && error@
                    == foreign_client_error(problem),
            },
    {
        match ServerName::parse(text) {
            Ok(id) => Ok(id),
            Err(error) => Err(ClientError::from_err(error)),
        }
    }

    /// The identifier's text.
    pub fn as_str(&self) -> (r: &str)
        ensures
            r@ == self@,
    {
        self.text.as_str()
    }

    /// Hands the identifier's text out.
    pub fn into_string(self) -> (r: String)
        ensures
            r@ == self@,
    {
        self.text
    }
}

impl UserId {
    /// Accepts a list of texts that a client sent, in order, or refuses the client's request
    /// because of the first text that is not a user ID.
    pub fn request_all(list: &Vec<String>) -> (r: Result<Vec<UserId>, ClientError>)
        ensures
            match r {
                Ok(ids) => {
                    &&& ids@.map_values(|id: UserId| id@) =~= texts(list@)
                    &&& forall|i: int|
                        0 <= i < list@.len() ==> user_id_problem(#[trigger] list@[i]@) is None
                },
                Err(error) => exists|i: int|
                    0 <= i < list@.len() && (forall|j: int|
                        0 <= j < i ==> user_id_problem(#[trigger] list@[j]@) is None) && (
                    user_id_problem(#[trigger] list@[i]@) matches Some(problem) && error@
                        == foreign_client_error(problem)),
            },
    {
        let mut ids: Vec<UserId> = Vec::new();
        let mut i: usize = 0;
        while i < list.len()
            invariant
                i <= list@.len(),
                ids@.len() == i,
                forall|j: int| 0 <= j < i ==> (#[trigger] ids@[j])@ == list@[j]@,
                forall|j: int| 0 <= j < i ==> user_id_problem(#[trigger] list@[j]@) is None,
            decreases list@.len() - i,
        {
            match UserId::request(list[i].as_str()) {
                Ok(id) => ids.push(id),
                Err(error) => {
                    assert(user_id_problem(list@[i as int]@) is Some);
                    return Err(error);
                },
            }
            i = i + 1;
        }
        Ok(ids)
    }
}

impl RoomAliasId {
    /// Accepts a list of texts that a client sent, in order, or refuses the client's request
    /// because of the first text that is not a room alias.
    pub fn request_all(list: &Vec<String>) -> (r: Result<Vec<RoomAliasId>, ClientError>)
        ensures
            match r {
                Ok(ids) => {
                    &&& ids@.map_values(|id: RoomAliasId| id@) =~= texts(list@)
                    &&& forall|i: int|
                        0 <= i < list@.len() ==> room_alias_id_problem(#[trigger] list@[i]@) is None
                },
                Err(error) => exists|i: int|
                    0 <= i < list@.len() && (forall|j: int|
                        0 <= j < i ==> room_alias_id_problem(#[trigger] list@[j]@) is None) && (
                    room_alias_id_problem(#[trigger] list@[i]@) matches Some(problem) && error@
                        == foreign_client_error(problem)),
            },
    {
        let mut ids: Vec<RoomAliasId> = Vec::new();
        let mut i: usize = 0;
        while i < list.len()
            invariant
                i <= list@.len(),
                ids@.len() == i,
                forall|j: int| 0 <= j < i ==> (#[trigger] ids@[j])@ == list@[j]@,
                forall|j: int| 0 <= j < i ==> room_alias_id_problem(#[trigger] list@[j]@) is None,
            decreases list@.len() - i,
        {
            match RoomAliasId::request(list[i].as_str()) {
                Ok(id) => ids.push(id),
                Err(error) => {
                    assert(room_alias_id_problem(list@[i as int]@) is Some);
                    return Err(error);
                },
            }
            i = i + 1;
        }
        Ok(ids)
    }
}

impl ServerName {
    /// Accepts a list of texts that a client sent, in order, or refuses the client's request
    /// because of the first text that is not a server name.
    pub fn request_all(list: &Vec<String>) -> (r: Result<Vec<ServerName>, ClientError>)
        ensures
            match r {
                Ok(ids) => {
                    &&& ids@.map_values(|id: ServerName| id@) =~= texts(list@)
                    &&& forall|i: int|
                        0 <= i < list@.len() ==> server_name_problem(#[trigger] list@[i]@) is None
                },
                Err(error) => exists|i: int|
                    0 <= i < list@.len() && (forall|j: int|
                        0 <= j < i ==> server_name_problem(#[trigger] list@[j]@) is None) && (
                    server_name_problem(#[trigger] list@[i]@) matches Some(problem) && error@
                        == foreign_client_error(problem)),
            },
    {
        let mut ids: Vec<ServerName> = Vec::new();
        let mut i: usize = 0;
        while i < list.len()
            invariant
                i <= list@.len(),
                ids@.len() == i,
                forall|j: int| 0 <= j < i ==> (#[trigger] ids@[j])@ == list@[j]@,
                forall|j: int| 0 <= j < i ==> server_name_problem(#[trigger] list@[j]@) is None,
            decreases list@.len() - i,
        {
            match ServerName::request(list[i].as_str()) {
                Ok(id) => ids.push(id),
                Err(error) => {
                    assert(server_name_problem(list@[i as int]@) is Some);
                    return Err(error);
                },
            }
            i = i + 1;
        }
        Ok(ids)
    }
}

/// Whether a byte stands for itself in one segment of a link's path.
pub open spec fn kept_in_path(byte: u8) -> bool {
    &&& 0x20 < byte < 0x7f
    &&& byte != '"' as u8
    &&& byte != '#' as u8
    &&& byte != '<' as u8
    &&& byte != '>' as u8
    &&& byte != '?' as u8
    &&& byte != '`' as u8
    &&& byte != '{' as u8
    &&& byte != '}' as u8
    &&& byte != '/' as u8
}

/// The upper-case hexadecimal digit.
pub open spec fn hex_digit(d: u8) -> char
    recommends
        d < 16,
{
    if d < 10 {
        (d + '0' as u8) as char
    } else {
        (d - 10 + 'A' as u8) as char
    }
}

/// Bytes as a link shows them: kept, or as a percent sign and two hexadecimal digits.
pub open spec fn percent_encoded(bytes: Seq<u8>) -> Seq<char>
    decreases bytes.len(),
{
    if bytes.len() == 0 {
        Seq::empty()
    } else {
        let byte = bytes.last();
        percent_encoded(bytes.drop_last()) + if kept_in_path(byte) {
            seq![byte as char]
        } else {
            seq!['%', hex_digit(byte / 16), hex_digit(byte % 16)]
        }
    }
}

/// The `matrix.to` link to a room alias.
pub open spec fn alias_link(alias: Seq<char>) -> Seq<char> {
    "https://matrix.to/#/"@ + percent_encoded(encode_utf8(alias))
}

/// `ruma::RoomAliasId::matrix_to_uri`, written out: the address of matrix.to, then the bytes of the
/// alias, percent-encoded for one segment of a path.
#[verifier::external_body]
fn ruma_alias_link(alias: &str) -> (r: String)
    requires
        room_alias_id_problem(alias@) is None,
    ensures
        r@ == alias_link(alias@),
{
    <&ruma::RoomAliasId>::try_from(alias).unwrap().matrix_to_uri().to_string()
}

/// Generates a `matrix.to` permalink to the given room alias.
pub fn matrix_to_room_alias_permalink(room_alias: String) -> (r: Result<String, ClientError>)
    ensures
        match r {
            Ok(link) => room_alias_id_problem(room_alias@) is None && link@ == alias_link(
                room_alias@,
            ),
            Err(error) => room_alias_id_problem(room_alias@) matches Some(problem) && error@
                == foreign_client_error(problem),
        },
{
    match RoomAliasId::request(room_alias.as_str()) {
        Ok(alias) => Ok(ruma_alias_link(alias.as_str())),
        Err(error) => Err(error),
    }
}

/// What follows the first colon of a text.
pub open spec fn after_first_colon(text: Seq<char>) -> Seq<char>
    decreases text.len(),
{
    if text.len() == 0 {
        text
    } else if text.first() == ':' {
        text.drop_first()
    } else {
        after_first_colon(text.drop_first())
    }
}

/// `ruma::UserId::server_name`: of an accepted user ID, what follows its first colon.
#[verifier::external_body]
fn ruma_user_server(user_id: &str) -> (r: String)
    requires
        user_id_problem(user_id@) is None,
    ensures
        r@ == after_first_colon(user_id@),
{
    <&ruma::UserId>::try_from(user_id).unwrap().server_name().to_string()
}

/// The name of the server that a user belongs to, where the text is a user ID.
pub fn server_of_user(user_id: &str) -> (r: Result<String, ForeignError>)
    ensures
        match r {
            Ok(server) => user_id_problem(user_id@) is None && server@ == after_first_colon(
                user_id@,
            ),
            Err(error) => user_id_problem(user_id@) == Some(error@),
        },
{
    match UserId::parse(user_id) {
        Ok(id) => Ok(ruma_user_server(id.as_str())),
        Err(error) => Err(error),
    }
}

/// Every link to a room alias leads to matrix.to.
pub proof fn law_alias_link_leads_to_matrix_to(alias: Seq<char>)
    ensures
        alias_link(alias).len() >= "https://matrix.to/#/"@.len(),
        alias_link(alias).take("https://matrix.to/#/"@.len() as int) == "https://matrix.to/#/"@,
{
    assert(alias_link(alias).take("https://matrix.to/#/"@.len() as int)
        =~= "https://matrix.to/#/"@);
}

/// Texts are accepted as identifiers exactly if nothing is wrong with them, and then stay what they
/// are; a refusal is told in the words of what is wrong.
pub proof fn law_identifiers_are_the_texts_that_were_given(
    text: &str,
    event: Result<EventId, ClientError>,
    user: Result<UserId, ClientError>,
    alias: Result<RoomAliasId, ClientError>,
    server: Result<ServerName, ClientError>,
)
    requires
        call_ensures(EventId::request, (text,), event),
        call_ensures(UserId::request, (text,), user),
        call_ensures(RoomAliasId::request, (text,), alias),
        call_ensures(ServerName::request, (text,), server),
    ensures
        match event_id_problem(text@) {
            None => event matches Ok(id) && id@ == text@,
            Some(problem) => event matches Err(ClientError::Generic { msg, details: Some(details) })
                && msg@ == problem.message && details@ == problem.debug,
        },
        match user_id_problem(text@) {
            None => user matches Ok(id) && id@ == text@,
            Some(problem) => user matches Err(ClientError::Generic { msg, details: Some(details) })
                && msg@ == problem.message && details@ == problem.debug,
        },
        match room_alias_id_problem(text@) {
            None => alias matches Ok(id) && id@ == text@,
            Some(problem) => alias matches Err(ClientError::Generic { msg, details: Some(details) })
                && msg@ == problem.message && details@ == problem.debug,
        },
        match server_name_problem(text@) {
            None => server matches Ok(id) && id@ == text@,
            Some(problem) => server matches Err(ClientError::Generic { msg, details: Some(details) })
                && msg@ == problem.message && details@ == problem.debug,
        },
{
}

/// A list of texts is accepted exactly if each of them is, and is then kept in order.
pub proof fn law_lists_of_identifiers_keep_their_order(
    list: Vec<String>,
    users: Result<Vec<UserId>, ClientError>,
    aliases: Result<Vec<RoomAliasId>, ClientError>,
    servers: Result<Vec<ServerName>, ClientError>,
)
    requires
        call_ensures(UserId::request_all, (&list,), users),
        call_ensures(RoomAliasId::request_all, (&list,), aliases),
        call_ensures(ServerName::request_all, (&list,), servers),
    ensures
        users is Ok <==> forall|i: int|
            0 <= i < list@.len() ==> user_id_problem(#[trigger] list@[i]@) is None,
        aliases is Ok <==> forall|i: int|
            0 <= i < list@.len() ==> room_alias_id_problem(#[trigger] list@[i]@) is None,
        servers is Ok <==> forall|i: int|
            0 <= i < list@.len() ==> server_name_problem(#[trigger] list@[i]@) is None,
        users matches Ok(ids) ==> ids@.len() == list@.len() && forall|i: int|
            0 <= i < list@.len() ==> (#[trigger] ids@[i])@ == list@[i]@,
        aliases matches Ok(ids) ==> ids@.len() == list@.len() && forall|i: int|
            0 <= i < list@.len() ==> (#[trigger] ids@[i])@ == list@[i]@,
        servers matches Ok(ids) ==> ids@.len() == list@.len() && forall|i: int|
            0 <= i < list@.len() ==> (#[trigger] ids@[i])@ == list@[i]@,
{
    let all = texts(list@);
    if let Ok(ids) = users {
        let kept = ids@.map_values(|id: UserId| id@);
        assert(kept.len() == all.len());
        assert forall|i: int| 0 <= i < list@.len() implies (#[trigger] ids@[i])@ == list@[i]@ by {
            assert(kept[i] == all[i]);
        }
    }
    if let Ok(ids) = aliases {
        let kept = ids@.map_values(|id: RoomAliasId| id@);
        assert(kept.len() == all.len());
        assert forall|i: int| 0 <= i < list@.len() implies (#[trigger] ids@[i])@ == list@[i]@ by {
            assert(kept[i] == all[i]);
        }
    }
    if let Ok(ids) = servers {
        let kept = ids@.map_values(|id: ServerName| id@);
        assert(kept.len() == all.len());
        assert forall|i: int| 0 <= i < list@.len() implies (#[trigger] ids@[i])@ == list@[i]@ by {
            assert(kept[i] == all[i]);
        }
    }
}

/// There is a link to a room alias exactly if it is one: the address of matrix.to, and the alias as a
/// link shows it.
pub proof fn law_only_aliases_have_links(room_alias: String, r: Result<String, ClientError>)
    requires
        call_ensures(matrix_to_room_alias_permalink, (room_alias,), r),
    ensures
        r is Ok <==> room_alias_id_problem(room_alias@) is None,
        r matches Ok(link) ==> link@ == "https://matrix.to/#/"@ + percent_encoded(
            encode_utf8(room_alias@),
        ),
{
}

/// A link shows letters, digits and most signs as they are, one for one and in order, and every other
/// byte as a percent sign and two hexadecimal digits: what is shown of two texts put together is what is
/// shown of the first, then what is shown of the second.
pub proof fn law_links_show_byte_after_byte(first: Seq<u8>, second: Seq<u8>)
    ensures
        percent_encoded(first + second) == percent_encoded(first) + percent_encoded(second),
        percent_encoded(Seq::<u8>::empty()) == Seq::<char>::empty(),
        first.len() == 1 && ('a' as u8 <= first[0] <= 'z' as u8 || 'A' as u8 <= first[0] <= 'Z' as u8
            || '0' as u8 <= first[0] <= '9' as u8) ==> percent_encoded(first) == seq![
            first[0] as char,
        ],
        first.len() == 1 && first[0] == '#' as u8 ==> percent_encoded(first) == seq!['%', '2', '3'],
    decreases second.len(),
{
    assert(percent_encoded(Seq::<u8>::empty()) == Seq::<char>::empty());
    if first.len() == 1 {
        assert(first.drop_last() =~= Seq::<u8>::empty());
        assert(percent_encoded(first) =~= if kept_in_path(first[0]) {
            seq![first[0] as char]
        } else {
            seq!['%', hex_digit(first[0] / 16), hex_digit(first[0] % 16)]
        });
    }
    if second.len() == 0 {
        assert(first + second =~= first);
        assert(percent_encoded(first) + percent_encoded(second) =~= percent_encoded(first));
    } else {
        assert((first + second).drop_last() =~= first + second.drop_last());
        law_links_show_byte_after_byte(first, second.drop_last());
        assert(percent_encoded(first + second) =~= percent_encoded(first) + percent_encoded(second));
    }
}

/// The server of a user is what stands in the user's ID after its first colon.
pub proof fn law_server_of_a_user_follows_the_first_colon(
    user_id: &str,
    r: Result<String, ForeignError>,
    colon: int,
)
    requires
        call_ensures(server_of_user, (user_id,), r),
        0 <= colon < user_id@.len(),
        user_id@[colon] == ':',
        forall|i: int| 0 <= i < colon ==> #[trigger] user_id@[i] != ':',
    ensures
        r is Ok <==> user_id_problem(user_id@) is None,
        r matches Ok(server) ==> server@ == user_id@.skip(colon + 1),
{
    lemma_after_first_colon(user_id@, colon);
}

proof fn lemma_after_first_colon(text: Seq<char>, colon: int)
    requires
        0 <= colon < text.len(),
        text[colon] == ':',
        forall|i: int| 0 <= i < colon ==> #[trigger] text[i] != ':',
    ensures
        after_first_colon(text) == text.skip(colon + 1),
    decreases colon,
{
    if colon == 0 {
        assert(text.drop_first() =~= text.skip(1));
    } else {
        let rest = text.drop_first();
        assert(text.first() == text[0]);
        assert forall|i: int| 0 <= i < colon - 1 implies #[trigger] rest[i] != ':' by {
            assert(rest[i] == text[i + 1]);
        }
        lemma_after_first_colon(rest, colon - 1);
        assert(rest.skip(colon) =~= text.skip(colon + 1));
    }
}

/// A list is refused because of its first text that is no identifier, in the words of what is wrong
/// with it.
pub proof fn law_first_bad_text_is_the_one_that_is_refused(
    list: Vec<String>,
    users: ClientError,
    aliases: ClientError,
    servers: ClientError,
)
    requires
        call_ensures(UserId::request_all, (&list,), Err(users)),
        call_ensures(RoomAliasId::request_all, (&list,), Err(aliases)),
        call_ensures(ServerName::request_all, (&list,), Err(servers)),
    ensures
        exists|i: int|
            #![trigger list@[i]]
            {
                &&& 0 <= i < list@.len()
                &&& user_id_problem(list@[i]@) matches Some(problem)
                &&& users matches ClientError::Generic { msg, details: Some(details) }
                &&& msg@ == problem.message
                &&& details@ == problem.debug
                &&& forall|j: int| 0 <= j < i ==> user_id_problem(#[trigger] list@[j]@) is None
            },
        exists|i: int|
            #![trigger list@[i]]
            {
                &&& 0 <= i < list@.len()
                &&& room_alias_id_problem(list@[i]@) matches Some(problem)
                &&& aliases matches ClientError::Generic { msg, details: Some(details) }
                &&& msg@ == problem.message
                &&& details@ == problem.debug
                &&& forall|j: int| 0 <= j < i ==> room_alias_id_problem(#[trigger] list@[j]@) is None
            },
        exists|i: int|
            #![trigger list@[i]]
            {
                &&& 0 <= i < list@.len()
                &&& server_name_problem(list@[i]@) matches Some(problem)
                &&& servers matches ClientError::Generic { msg, details: Some(details) }
                &&& msg@ == problem.message
                &&& details@ == problem.debug
                &&& forall|j: int| 0 <= j < i ==> server_name_problem(#[trigger] list@[j]@) is None
            },
{
    let i = choose|i: int|
        0 <= i < list@.len() && (forall|j: int|
            0 <= j < i ==> user_id_problem(#[trigger] list@[j]@) is None) && (user_id_problem(
            #[trigger] list@[i]@,
        ) matches Some(problem) && users@ == foreign_client_error(problem));
    let first = list@[i];
    let i = choose|i: int|
        0 <= i < list@.len() && (forall|j: int|
            0 <= j < i ==> room_alias_id_problem(#[trigger] list@[j]@) is None) && (
        room_alias_id_problem(#[trigger] list@[i]@) matches Some(problem) && aliases@
            == foreign_client_error(problem));
    let first = list@[i];
    let i = choose|i: int|
        0 <= i < list@.len() && (forall|j: int|
            0 <= j < i ==> server_name_problem(#[trigger] list@[j]@) is None) && (
        server_name_problem(#[trigger] list@[i]@) matches Some(problem) && servers@
            == foreign_client_error(problem));
    let first = list@[i];
}

} // verus!
