use file_properties::{
    CloseStep, CommitError, FileProperties, FromPropVariant, HostCall, HostReply, OpenError,
    OpenStep, PropError, PropVariant, PropVector, PropertyKey, ReadStep, StoreFlags,
    ToPropVariant, WriteStep,
};

const UNIQUE_ID: PropertyKey = PropertyKey { fmtid: 0x64440492_4C8B_11D1_8B70_080036B11A03, pid: 37 };
const AUTHOR: PropertyKey = PropertyKey { fmtid: 0xF29F85E0_4FF9_1068_AB91_08002B27B3D9, pid: 4 };
const INTEGER: PropertyKey = PropertyKey { fmtid: 0x65A98875_3C80_40AB_ABBC_EFDAF77DBEE2, pid: 100 };

const NOT_FOUND: i32 = -2147024894;
const UNKNOWN_NAME: i32 = -2147319765;
const WRONG_TYPE: i32 = -2147024809;
const ACCESS_DENIED: i32 = -2147024891;

/// One file with the properties that are in it.
struct File {
    path: String,
    props: Vec<(PropertyKey, PropVariant)>,
}

/// A property system in memory that answers the calls as the host would.
struct Host {
    files: Vec<File>,
    open: Option<usize>,
    read_only: bool,
    staged: Vec<(PropertyKey, PropVariant)>,
    buffer: Option<PropVariant>,
    entered: u32,
    contexts: u32,
    stores: u32,
    buffers_cleared: u32,
    calls: Vec<HostCall>,
}

fn value_of(props: &[(PropertyKey, PropVariant)], key: PropertyKey) -> PropVariant {
    for (held, value) in props {
        if *held == key {
            return value.duplicate();
        }
    }
    PropVariant::Empty
}

impl Host {
    fn new(files: Vec<File>) -> Host {
        Host {
            files,
            open: None,
            read_only: false,
            staged: Vec::new(),
            buffer: None,
            entered: 0,
            contexts: 0,
            stores: 0,
            buffers_cleared: 0,
            calls: Vec::new(),
        }
    }

    fn has_file(&self, path: &str) -> bool {
        self.files.iter().any(|file| file.path == path)
    }

    fn copy(&mut self, from: &str, to: &str) {
        let source = self.files.iter().find(|file| file.path == from).unwrap();
        let props = source.props.iter().map(|(key, value)| (*key, value.duplicate())).collect();
        self.files.push(File { path: to.to_string(), props });
    }

    fn remove(&mut self, path: &str) {
        self.files.retain(|file| file.path != path);
    }

    fn holds_nothing(&self) -> bool {
        self.entered == 0 && self.contexts == 0 && self.stores == 0 && self.buffer.is_none()
    }

    fn perform(&mut self, call: HostCall) -> HostReply {
        self.calls.push(call.clone());
        match call {
            HostCall::EnterEnvironment { mode } => {
                assert_eq!(mode, 2);
                self.entered += 1;
                HostReply::Done
            },
            HostCall::CreateContext => {
                assert!(self.entered > 0);
                self.contexts += 1;
                HostReply::Done
            },
            HostCall::OpenStore { path, flags } => {
                assert!(self.contexts > 0);
                let path = String::from_utf16(&path).unwrap();
                match self.files.iter().position(|file| file.path == path) {
                    Some(at) => {
                        self.open = Some(at);
                        self.read_only = flags.bits & 2 == 0;
                        self.staged = self.files[at]
                            .props
                            .iter()
                            .map(|(key, value)| (*key, value.duplicate()))
                            .collect();
                        self.stores += 1;
                        HostReply::Done
                    },
                    None => HostReply::Failed(NOT_FOUND),
                }
            },
            HostCall::ReleaseBoundObjects => {
                assert!(self.contexts > 0);
                self.contexts -= 1;
                if self.open.take().is_some() {
                    self.stores -= 1;
                }
                HostReply::Done
            },
            HostCall::ExitEnvironment => {
                assert!(self.entered > self.contexts);
                self.entered -= 1;
                HostReply::Done
            },
            HostCall::ResolveKey { name } => match String::from_utf16(&name).unwrap().as_str() {
                "System.Media.UniqueFileIdentifier" => HostReply::Key(UNIQUE_ID),
                "System.Author" => HostReply::Key(AUTHOR),
                "System.Generic.Integer" => HostReply::Key(INTEGER),
                _ => HostReply::Failed(UNKNOWN_NAME),
            },
            HostCall::ReadValue { key } => {
                assert!(self.open.is_some() && self.buffer.is_none());
                self.buffer = Some(value_of(&self.staged, key));
                HostReply::Done
            },
            HostCall::ConvertText { default_text } => match self.buffer.as_ref().unwrap() {
                PropVariant::Text(units) => HostReply::Value(PropVariant::Text(units.clone())),
                _ => HostReply::Value(PropVariant::Text(default_text)),
            },
            HostCall::ConvertNumber { default_number } => match self.buffer.as_ref().unwrap() {
                PropVariant::Number(held) => HostReply::Value(PropVariant::Number(*held)),
                _ => HostReply::Value(PropVariant::Number(default_number)),
            },
            HostCall::ConvertTextVector => match self.buffer.as_ref().unwrap() {
                PropVariant::TextVector(items) => {
                    HostReply::Value(PropVariant::TextVector(items.clone()))
                },
                PropVariant::Text(units) => {
                    HostReply::Value(PropVariant::TextVector(vec![units.clone()]))
                },
                _ => HostReply::Failed(WRONG_TYPE),
            },
            HostCall::ClearBuffer => {
                assert!(self.buffer.take().is_some());
                self.buffers_cleared += 1;
                HostReply::Done
            },
            HostCall::BuildValue { value } => {
                assert!(self.buffer.is_none());
                self.buffer = Some(match value {
                    PropVariant::Text(units) => PropVariant::TextVector(vec![units]),
                    other => other,
                });
                HostReply::Done
            },
            HostCall::CoerceValue { key } => {
                let held = self.buffer.take().unwrap();
                let coerced = match (key == AUTHOR, key == INTEGER, held) {
                    (true, _, PropVariant::TextVector(items)) => PropVariant::TextVector(items),
                    (false, false, PropVariant::TextVector(mut items)) if items.len() == 1 => {
                        PropVariant::Text(items.remove(0))
                    },
                    (false, true, PropVariant::Number(number)) => PropVariant::Number(number),
                    (_, _, other) => {
                        self.buffer = Some(other);
                        return HostReply::Failed(WRONG_TYPE);
                    },
                };
                self.buffer = Some(coerced);
                HostReply::Done
            },
            HostCall::WriteValue { key } => {
                let value = self.buffer.take().unwrap();
                if self.read_only {
                    return HostReply::Failed(ACCESS_DENIED);
                }
                self.staged.retain(|(held, _)| *held != key);
                self.staged.push((key, value));
                HostReply::Done
            },
        }
    }

    fn commit(&mut self) -> Result<(), i32> {
        let at = self.open.unwrap();
        if self.read_only {
            return Err(ACCESS_DENIED);
        }
        self.files[at].props =
            self.staged.iter().map(|(key, value)| (*key, value.duplicate())).collect();
        Ok(())
    }

    fn count(&self) -> Result<u32, i32> {
        Ok(self.staged.len() as u32)
    }
}

fn open(host: &mut Host, path: &str, flag: Option<StoreFlags>) -> Result<FileProperties, OpenError> {
    let mut opening = FileProperties::new(path, flag, host.has_file(path))?;
    loop {
        let reply = host.perform(opening.request());
        match opening.advance(reply) {
            OpenStep::Pending(next) => opening = next,
            OpenStep::Ready(session) => return Ok(session),
            OpenStep::Failed(error) => return Err(error),
        }
    }
}

fn close(host: &mut Host, session: FileProperties) {
    let mut closing = session.close();
    loop {
        let reply = host.perform(closing.request());
        match closing.advance(reply) {
            CloseStep::Pending(next) => closing = next,
            CloseStep::Closed => return,
        }
    }
}

fn get<T: FromPropVariant>(host: &mut Host, session: &FileProperties, name: &str) -> Result<T, PropError> {
    let mut reading = session.get_prop::<T>(name);
    loop {
        let reply = host.perform(reading.request());
        match reading.advance(reply) {
            ReadStep::Pending(next) => reading = next,
            ReadStep::Finished(outcome) => return outcome,
        }
    }
}

fn set<T: ToPropVariant>(
    host: &mut Host,
    session: &FileProperties,
    name: &str,
    value: T,
) -> Result<(), PropError> {
    let mut writing = session.set_prop(name, value);
    loop {
        let reply = host.perform(writing.request());
        match writing.advance(reply) {
            WriteStep::Pending(next) => writing = next,
            WriteStep::Finished(outcome) => return outcome,
        }
    }
}

fn text(value: &str) -> PropVariant {
    PropVariant::Text(value.encode_utf16().collect())
}

fn test_files() -> Vec<File> {
    vec![
        File { path: ".\\test\\video_without_properties.mp4".to_string(), props: Vec::new() },
        File {
            path: ".\\test\\video_with_properties.mp4".to_string(),
            props: vec![
                (UNIQUE_ID, text("0f8fad5b-d9cb-469f-a165-70867728950e")),
                (
                    AUTHOR,
                    PropVariant::TextVector(vec![
                        "Ada Lovelace".encode_utf16().collect(),
                        "Grace Hopper".encode_utf16().collect(),
                        "Ada Lovelace".encode_utf16().collect(),
                    ]),
                ),
                (INTEGER, PropVariant::Number(42)),
            ],
        },
    ]
}

#[test]
fn gets_props() {
    let mut host = Host::new(test_files());
    let files: Vec<String> = host.files.iter().map(|file| file.path.clone()).collect();
    for file in files {
        let props = open(&mut host, &file, None).unwrap();
        let id: String = get(&mut host, &props, "System.Media.UniqueFileIdentifier").unwrap();
        if file.contains("without") {
            assert!(id.is_empty());
        } else {
            assert!(!id.is_empty());
        }
        close(&mut host, props);
    }
    assert!(host.holds_nothing());
}

#[test]
fn sets_props() {
    let mut host = Host::new(test_files());
    let raw_test_video_path = format!("{}\\{}", ".\\test", "video_without_properties.mp4");
    let full_test_file_path = format!("{}\\{}", ".\\test", "new_test_video.mp4");
    host.copy(&raw_test_video_path, &full_test_file_path);

    let test_id = "this_is_the_test_id";

    {
        let props = open(&mut host, &full_test_file_path, Some(StoreFlags::read_write())).unwrap();
        set(&mut host, &props, "System.Media.UniqueFileIdentifier", test_id).unwrap();
        host.commit().unwrap();
        props.commit(Ok(())).unwrap();
        close(&mut host, props);
    }

    {
        let props = open(&mut host, &full_test_file_path, None).unwrap();
        let id: String = get(&mut host, &props, "System.Media.UniqueFileIdentifier").unwrap();

        assert_eq!(id, test_id);
        close(&mut host, props);
    }

    host.remove(&full_test_file_path);
    assert!(host.holds_nothing());
}

#[test]
fn open_of_existing_file_succeeds_with_default_flags() {
    let mut host = Host::new(test_files());
    let props = open(&mut host, ".\\test\\video_with_properties.mp4", None).unwrap();
    assert_eq!(props.flags(), StoreFlags { bits: 2 });
    assert_eq!((host.entered, host.contexts, host.stores), (1, 1, 1));
    close(&mut host, props);
    assert!(host.holds_nothing());
}

#[test]
fn failed_opens_acquire_nothing() {
    let mut host = Host::new(test_files());
    for round in 0..5_000 {
        let path = format!(".\\test\\missing_{}.mp4", round);
        assert_eq!(open(&mut host, &path, None).err(), Some(OpenError::NotFound));
    }
    assert!(host.calls.is_empty());
    assert!(host.holds_nothing());
}

#[test]
fn store_that_the_host_refuses_is_released_again() {
    let mut host = Host::new(test_files());
    let opening = FileProperties::new(".\\test\\gone_meanwhile.mp4", None, true).unwrap();
    let mut opening = opening;
    let error = loop {
        let reply = host.perform(opening.request());
        match opening.advance(reply) {
            OpenStep::Pending(next) => opening = next,
            OpenStep::Ready(session) => panic!("the session is open: {:?}", session),
            OpenStep::Failed(error) => break error,
        }
    };
    assert_eq!(error, OpenError::StoreUnavailable(NOT_FOUND));
    assert!(host.holds_nothing());
    assert_eq!(host.calls.len(), 5);
    assert_eq!(host.calls[3], HostCall::ReleaseBoundObjects);
    assert_eq!(host.calls[4], HostCall::ExitEnvironment);
}

#[test]
fn sessions_that_overlap_leave_as_often_as_they_entered() {
    let mut host = Host::new(test_files());
    let first = open(&mut host, ".\\test\\video_with_properties.mp4", None).unwrap();
    assert_eq!(host.entered, 1);
    let second = FileProperties::new(".\\test\\video_without_properties.mp4", None, true).unwrap();
    let reply = host.perform(second.request());
    assert_eq!(host.entered, 2);
    let binding = match second.advance(reply) {
        OpenStep::Pending(binding) => binding,
        other => panic!("the opening ended: {:?}", other),
    };
    let leaving = match binding.advance(HostReply::Failed(-1)) {
        OpenStep::Pending(leaving) => leaving,
        other => panic!("the opening ended: {:?}", other),
    };
    host.perform(leaving.request());
    assert_eq!(host.entered, 1);
    assert_eq!(first.path(), ".\\test\\video_with_properties.mp4");
    close(&mut host, first);
    assert!(host.holds_nothing());
}

#[test]
fn absent_property_reads_as_default() {
    let mut host = Host::new(test_files());
    let props = open(&mut host, ".\\test\\video_without_properties.mp4", None).unwrap();
    let id: String = get(&mut host, &props, "System.Media.UniqueFileIdentifier").unwrap();
    assert_eq!(id, "");
    let number: u32 = get(&mut host, &props, "System.Generic.Integer").unwrap();
    assert_eq!(number, 0);
    let authors: PropVector = get(&mut host, &props, "System.Author").unwrap();
    assert_eq!(authors.vector, Vec::<String>::new());
    assert_eq!(host.buffers_cleared, 3);
    close(&mut host, props);
    assert!(host.holds_nothing());
}

#[test]
fn present_properties_read_as_their_values() {
    let mut host = Host::new(test_files());
    let props = open(&mut host, ".\\test\\video_with_properties.mp4", None).unwrap();
    let id: String = get(&mut host, &props, "System.Media.UniqueFileIdentifier").unwrap();
    assert_eq!(id, "0f8fad5b-d9cb-469f-a165-70867728950e");
    let number: u32 = get(&mut host, &props, "System.Generic.Integer").unwrap();
    assert_eq!(number, 42);
    close(&mut host, props);
}

#[test]
fn author_vector_comes_in_order_with_its_repeats() {
    let mut host = Host::new(test_files());
    let props = open(&mut host, ".\\test\\video_with_properties.mp4", None).unwrap();
    let authors: PropVector = get(&mut host, &props, "System.Author").unwrap();
    assert_eq!(authors.vector, vec!["Ada Lovelace", "Grace Hopper", "Ada Lovelace"]);
    assert_eq!(authors.to_string(), "Ada Lovelace, Grace Hopper, Ada Lovelace, ");
    assert_eq!(host.buffers_cleared, 1);
    close(&mut host, props);
    assert!(host.holds_nothing());
}

#[test]
fn written_strings_read_back_after_commit() {
    for value in ["", "plain ascii", "\u{FC}ml\u{E4}ut \u{65E5}\u{672C}\u{8A9E} \u{1F600}"] {
        let mut host = Host::new(test_files());
        let path = ".\\test\\video_without_properties.mp4";
        let props = open(&mut host, path, None).unwrap();
        set(&mut host, &props, "System.Media.UniqueFileIdentifier", value).unwrap();
        assert_eq!(props.commit(host.commit()), Ok(()));
        let read_back: String = get(&mut host, &props, "System.Media.UniqueFileIdentifier").unwrap();
        assert_eq!(read_back, value);
        close(&mut host, props);
        let again = open(&mut host, path, None).unwrap();
        let read_again: String = get(&mut host, &again, "System.Media.UniqueFileIdentifier").unwrap();
        assert_eq!(read_again, value);
        close(&mut host, again);
        assert!(host.holds_nothing());
    }
}

#[test]
fn written_vector_reads_back_after_commit() {
    let mut host = Host::new(test_files());
    let props = open(&mut host, ".\\test\\video_without_properties.mp4", None).unwrap();
    let authors: Vec<&str> = vec!["Emmy Noether", "Sofia Kovalevskaya"];
    set(&mut host, &props, "System.Author", authors).unwrap();
    assert_eq!(props.commit(host.commit()), Ok(()));
    let read_back: PropVector = get(&mut host, &props, "System.Author").unwrap();
    assert_eq!(read_back.vector, vec!["Emmy Noether", "Sofia Kovalevskaya"]);
    close(&mut host, props);
}

#[test]
fn staged_value_is_not_in_the_file_before_commit() {
    let mut host = Host::new(test_files());
    let path = ".\\test\\video_without_properties.mp4";
    let props = open(&mut host, path, None).unwrap();
    set(&mut host, &props, "System.Media.UniqueFileIdentifier", "staged").unwrap();
    close(&mut host, props);
    let again = open(&mut host, path, None).unwrap();
    let id: String = get(&mut host, &again, "System.Media.UniqueFileIdentifier").unwrap();
    assert_eq!(id, "");
    close(&mut host, again);
}

#[test]
fn commit_twice_changes_nothing() {
    let mut host = Host::new(test_files());
    let props = open(&mut host, ".\\test\\video_with_properties.mp4", None).unwrap();
    assert_eq!(props.commit(host.commit()), Ok(()));
    assert_eq!(props.commit(host.commit()), Ok(()));
    let id: String = get(&mut host, &props, "System.Media.UniqueFileIdentifier").unwrap();
    assert_eq!(id, "0f8fad5b-d9cb-469f-a165-70867728950e");
    let authors: PropVector = get(&mut host, &props, "System.Author").unwrap();
    assert_eq!(authors.vector.len(), 3);
    close(&mut host, props);
}

#[test]
fn count_is_stable_without_writes() {
    let mut host = Host::new(test_files());
    let props = open(&mut host, ".\\test\\video_with_properties.mp4", None).unwrap();
    let first = props.get_prop_count(host.count());
    let second = props.get_prop_count(host.count());
    assert_eq!(first, 3);
    assert_eq!(second, first);
    let empty = open(&mut host, ".\\test\\video_without_properties.mp4", None).unwrap();
    assert_eq!(empty.get_prop_count(host.count()), 0);
}

#[test]
fn errors_of_a_session_keep_their_kind() {
    let mut host = Host::new(test_files());
    let path = ".\\test\\video_with_properties.mp4";
    let props = open(&mut host, path, Some(StoreFlags { bits: 0 })).unwrap();
    assert_eq!(
        get::<String>(&mut host, &props, "System.No.Such").err(),
        Some(PropError::UnknownProperty(UNKNOWN_NAME))
    );
    assert_eq!(
        set(&mut host, &props, "System.No.Such", "x").err(),
        Some(PropError::UnknownProperty(UNKNOWN_NAME))
    );
    assert_eq!(
        set(&mut host, &props, "System.Generic.Integer", "not a number").err(),
        Some(PropError::CoercionFailed(WRONG_TYPE))
    );
    assert_eq!(
        set(&mut host, &props, "System.Media.UniqueFileIdentifier", "x").err(),
        Some(PropError::WriteFailed(ACCESS_DENIED))
    );
    assert_eq!(props.commit(host.commit()), Err(CommitError::Failed(ACCESS_DENIED)));
    assert!(host.buffer.is_none());
    close(&mut host, props);
    assert!(host.holds_nothing());
}
