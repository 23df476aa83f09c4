//! The settings of a benchmark run, read from the command line, and the
//! choice of payload type and queue that they lead to.
use vstd::prelude::*;

verus! {

/// The queue a run measures.
#[derive(PartialEq, Eq, Structural, PartialOrd, Clone, Copy, Debug)]
pub enum QueueType {
    MyFastQueue,
    MyMPMC1,
    MyMPMC2,
    StdMpsc,
    StdMpscQ,
}

/// The settings of a run.
#[derive(Clone, Copy, Debug)]
pub struct QueueConf {
    pub queue_type: QueueType,
    /// The size of one element, in bytes.
    pub data_size: i32,
    pub n_sender: i32,
    pub n_receiver: i32,
    /// How long the producers run, in seconds.
    pub duration: i32,
}

/// The capacity of the queue that a run measures.
pub const TEST_QUEUE_SIZE: usize = 100000000;

pub open spec fn is_digit(c: char) -> bool {
    '0' <= c <= '9'
}

/// The number written in decimal by the digits `s`.
pub open spec fn digits_value(s: Seq<char>) -> int
    decreases s.len(),
{
    if s.len() == 0 {
        0
    } else {
        digits_value(s.drop_last()) * 10 + (s.last() as int - '0' as int)
    }
}

/// The `i32` that `s` writes as an optional sign followed by one or more
/// decimal digits, or `None` when `s` is not of that form or its number
/// does not fit in an `i32`.
pub open spec fn decimal_i32(s: Seq<char>) -> Option<i32> {
    let signed = s.len() > 0 && (s[0] == '-' || s[0] == '+');
    let body = if signed {
        s.drop_first()
    } else {
        s
    };
    let magnitude = digits_value(body);
    let v = if signed && s[0] == '-' {
        -magnitude
    } else {
        magnitude
    };
    if body.len() == 0 || !(forall|i: int| 0 <= i < body.len() ==> is_digit(#[trigger] body[i])) {
        None
    } else if i32::MIN <= v <= i32::MAX {
        Some(v as i32)
    } else {
        None
    }
}

/// `s` with every character in upper case, as `str::to_uppercase` gives it.
pub uninterp spec fn upper_case(s: Seq<char>) -> Seq<char>;

/// Calls `str::parse::<i32>`. Claimed: the result is the number when the
/// text is an optional `+` or `-` followed by at least one ASCII digit and
/// the number fits in an `i32`, and `None` otherwise, as the documentation
/// of `i32`'s `FromStr` says.
#[verifier::external_body]
fn parse_i32(s: &str) -> (r: Option<i32>)
    ensures
        r == decimal_i32(s@),
{
    match s.parse::<i32>() {
        Ok(v) => Some(v),
        Err(_) => None,
    }
}

/// Calls `str::to_uppercase`. Claimed: the result depends on the text
/// alone, and is named `upper_case` of it; what Unicode makes of each
/// character is not stated.
#[verifier::external_body]
fn to_upper(s: &str) -> (r: String)
    ensures
        r@ == upper_case(s@),
{
    s.to_uppercase()
}

/// The queue that an upper-case `name` chooses.
pub open spec fn queue_type_of(name: Seq<char>) -> Option<QueueType> {
    if name == "MYFQ"@ {
        Some(QueueType::MyFastQueue)
    } else if name == "MYMPMC1"@ {
        Some(QueueType::MyMPMC1)
    } else if name == "MYMPMC2"@ {
        Some(QueueType::MyMPMC2)
    } else if name == "MPSC"@ {
        Some(QueueType::StdMpsc)
    } else if name == "MPSCQ"@ {
        Some(QueueType::StdMpscQ)
    } else {
        None
    }
}

/// The settings that the command line `args` gives (`args[0]`, the
/// program, is skipped), or the complaint about the first argument that is
/// missing or wrong.
pub open spec fn conf_from_args(args: Seq<Seq<char>>) -> Result<QueueConf, &'static str> {
    if args.len() < 2 {
        Err("Didn't get a 'data size'")
    } else if decimal_i32(args[1]) is None {
        Err("Invalid args. Give a integer for data size")
    } else if args.len() < 3 {
        Err("Didn't get a 'sender count'")
    } else if decimal_i32(args[2]) is None {
        Err("Invalid args. Give a integer for sender count")
    } else if args.len() < 4 {
        Err("Didn't get a 'receiver count'")
    } else if decimal_i32(args[3]) is None {
        Err("Invalid args. Give a integer for receiver count")
    } else if args.len() < 5 {
        Err("Didn't get a 'test duration in seconds'")
    } else if decimal_i32(args[4]) is None {
        Err("Invalid args. Give a integer for duration in seconds")
    } else if args.len() < 6 {
        Err("Didn't get test queue type")
    } else {
        match queue_type_of(upper_case(args[5])) {
            None => Err("invalid queue type."),
            Some(t) => Ok(
                QueueConf {
                    queue_type: t,
                    data_size: decimal_i32(args[1])->Some_0,
                    n_sender: decimal_i32(args[2])->Some_0,
                    n_receiver: decimal_i32(args[3])->Some_0,
                    duration: decimal_i32(args[4])->Some_0,
                },
            ),
        }
    }
}

/// The texts of `args`.
pub open spec fn texts(args: Seq<String>) -> Seq<Seq<char>> {
    args.map_values(|a: String| a@)
}

impl QueueType {
    /// The queue that an upper-case `name` chooses.
    pub fn from_upper_name(name: &String) -> (r: Option<QueueType>)
        ensures
            r == queue_type_of(name@),
    {
        if *name == "MYFQ".to_owned() {
            Some(QueueType::MyFastQueue)
        } else if *name == "MYMPMC1".to_owned() {
            Some(QueueType::MyMPMC1)
        } else if *name == "MYMPMC2".to_owned() {
            Some(QueueType::MyMPMC2)
        } else if *name == "MPSC".to_owned() {
            Some(QueueType::StdMpsc)
        } else if *name == "MPSCQ".to_owned() {
            Some(QueueType::StdMpscQ)
        } else {
            None
        }
    }
}

impl QueueConf {
    /// Reads the settings from the command line `args`: the element size,
    /// the numbers of producers and of consumers, the duration in seconds
    /// and the queue's name, in any case.
    pub fn new(args: &Vec<String>) -> (r: Result<QueueConf, &'static str>)
        ensures
            r == conf_from_args(texts(args@)),
    {
        let ghost a = texts(args@);
        if args.len() < 2 {
            return Err("Didn't get a 'data size'");
        }
        let data_size = match parse_i32(args[1].as_str()) {
            Some(v) => v,
            None => return Err("Invalid args. Give a integer for data size"),
        };
        if args.len() < 3 {
            return Err("Didn't get a 'sender count'");
        }
        let n_sender = match parse_i32(args[2].as_str()) {
            Some(v) => v,
            None => return Err("Invalid args. Give a integer for sender count"),
        };
        if args.len() < 4 {
            return Err("Didn't get a 'receiver count'");
        }
        let n_receiver = match parse_i32(args[3].as_str()) {
            Some(v) => v,
            None => return Err("Invalid args. Give a integer for receiver count"),
        };
        if args.len() < 5 {
            return Err("Didn't get a 'test duration in seconds'");
        }
        let duration = match parse_i32(args[4].as_str()) {
            Some(v) => v,
            None => return Err("Invalid args. Give a integer for duration in seconds"),
        };
        if args.len() < 6 {
            return Err("Didn't get test queue type");
        }
        let name = to_upper(args[5].as_str());
        match QueueType::from_upper_name(&name) {
            None => Err("invalid queue type."),
            Some(queue_type) => Ok(QueueConf { queue_type, data_size, n_sender, n_receiver, duration }),
        }
    }
}

/// A payload type that a run can make fresh values of.
pub trait NewData: Sized {
    fn new() -> Self;
}

pub struct S8(pub i64);

impl NewData for S8 {
    fn new() -> (s: Self)
        ensures
            s.0 == 0,
    {
        S8(0)
    }
}

pub struct S32(pub S8, pub S8, pub S8, pub S8);

impl S32 {
    /// The value `new` makes: the words 1, 2, 3, 4.
    pub open spec fn filled(&self) -> bool {
        self.0.0 == 1 && self.1.0 == 2 && self.2.0 == 3 && self.3.0 == 4
    }
}

impl NewData for S32 {
    fn new() -> (s: Self)
        ensures
            s.filled(),
    {
        S32(S8(1), S8(2), S8(3), S8(4))
    }
}

pub struct S64(pub S32, pub S32);

impl S64 {
    /// The value `new` makes: two halves as `S32::new` makes them.
    pub open spec fn filled(&self) -> bool {
        self.0.filled() && self.1.filled()
    }
}

impl NewData for S64 {
    fn new() -> (s: Self)
        ensures
            s.filled(),
    {
        S64(<S32 as NewData>::new(), <S32 as NewData>::new())
    }
}

pub struct S128(pub S64, pub S64);

impl S128 {
    /// The value `new` makes: two halves as `S64::new` makes them.
    pub open spec fn filled(&self) -> bool {
        self.0.filled() && self.1.filled()
    }
}

impl NewData for S128 {
    fn new() -> (s: Self)
        ensures
            s.filled(),
    {
        S128(<S64 as NewData>::new(), <S64 as NewData>::new())
    }
}

pub struct S256(pub S128, pub S128);

impl S256 {
    /// The value `new` makes: two halves as `S128::new` makes them.
    pub open spec fn filled(&self) -> bool {
        self.0.filled() && self.1.filled()
    }
}

impl NewData for S256 {
    fn new() -> (s: Self)
        ensures
            s.filled(),
    {
        S256(<S128 as NewData>::new(), <S128 as NewData>::new())
    }
}

pub struct S512(pub S256, pub S256);

impl S512 {
    /// The value `new` makes: two halves as `S256::new` makes them.
    pub open spec fn filled(&self) -> bool {
        self.0.filled() && self.1.filled()
    }
}

impl NewData for S512 {
    fn new() -> (s: Self)
        ensures
            s.filled(),
    {
        S512(<S256 as NewData>::new(), <S256 as NewData>::new())
    }
}

pub struct S1024(pub S512, pub S512);

impl S1024 {
    /// The value `new` makes: two halves as `S512::new` makes them.
    pub open spec fn filled(&self) -> bool {
        self.0.filled() && self.1.filled()
    }
}

impl NewData for S1024 {
    fn new() -> (s: Self)
        ensures
            s.filled(),
    {
        S1024(<S512 as NewData>::new(), <S512 as NewData>::new())
    }
}

pub struct S2048(pub S1024, pub S1024);

impl S2048 {
    /// The value `new` makes: two halves as `S1024::new` makes them.
    pub open spec fn filled(&self) -> bool {
        self.0.filled() && self.1.filled()
    }
}

impl NewData for S2048 {
    fn new() -> (s: Self)
        ensures
            s.filled(),
    {
        S2048(<S1024 as NewData>::new(), <S1024 as NewData>::new())
    }
}

/// The payload type a run sends: `S8` .. `S2048`.
#[derive(PartialEq, Eq, Structural, Clone, Copy, Debug)]
pub enum DataSize {
    S8,
    S128,
    S256,
    S512,
    S1024,
    S2048,
}

/// The size in bytes of a payload type.
pub open spec fn payload_bytes(d: DataSize) -> int {
    match d {
        DataSize::S8 => 8,
        DataSize::S128 => 128,
        DataSize::S256 => 256,
        DataSize::S512 => 512,
        DataSize::S1024 => 1024,
        DataSize::S2048 => 2048,
    }
}

/// `d` is the smallest payload type of at least `size` bytes: it holds
/// `size` bytes, and every smaller type holds fewer.
pub open spec fn smallest_fit(d: DataSize, size: int) -> bool {
    &&& size <= payload_bytes(d)
    &&& forall|other: DataSize| payload_bytes(other) < payload_bytes(d) ==> payload_bytes(other) < size
}

/// The smallest payload type of at least `size` bytes, for sizes up to
/// 2048.
pub open spec fn data_size_for(size: i32) -> Option<DataSize> {
    if size <= 8 {
        Some(DataSize::S8)
    } else if size <= 128 {
        Some(DataSize::S128)
    } else if size <= 256 {
        Some(DataSize::S256)
    } else if size <= 512 {
        Some(DataSize::S512)
    } else if size <= 1024 {
        Some(DataSize::S1024)
    } else if size <= 2048 {
        Some(DataSize::S2048)
    } else {
        None
    }
}

/// What a run does: the payload type it sends and its settings.
#[derive(Clone, Copy, Debug)]
pub struct TestPlan {
    pub data: DataSize,
    pub config: QueueConf,
}

/// The run that `config` asks for, or why it cannot be made: the element
/// size is too big, or the standard queue of one consumer is asked for
/// with several.
pub fn run_queue_test(config: QueueConf) -> (r: Result<TestPlan, &'static str>)
    ensures
        match data_size_for(config.data_size) {
            None => r == Err::<TestPlan, &'static str>("data size is too big"),
            Some(d) => if config.queue_type == QueueType::StdMpscQ && config.n_receiver != 1 {
                r == Err::<TestPlan, &'static str>("MPSC queue does not support multiple consumers")
            } else {
                r == Ok::<TestPlan, &'static str>(TestPlan { data: d, config })
            },
        },
        (r matches Ok(p) ==> smallest_fit(p.data, config.data_size as int)),
        r is Ok ==> config.data_size <= 2048,
{
    let data = if config.data_size <= 8 {
        DataSize::S8
    } else if config.data_size <= 128 {
        DataSize::S128
    } else if config.data_size <= 256 {
        DataSize::S256
    } else if config.data_size <= 512 {
        DataSize::S512
    } else if config.data_size <= 1024 {
        DataSize::S1024
    } else if config.data_size <= 2048 {
        DataSize::S2048
    } else {
        return Err("data size is too big");
    };
    if config.queue_type == QueueType::StdMpscQ && config.n_receiver != 1 {
        return Err("MPSC queue does not support multiple consumers");
    }
    proof {
        law_payload_is_smallest_fit(config.data_size);
    }
    Ok(TestPlan { data, config })
}

/// A run sends the smallest payload type that holds the element size asked
/// for, and there is one exactly for sizes up to 2048 bytes.
pub proof fn law_payload_is_smallest_fit(size: i32)
    ensures
        size <= 2048 ==> (data_size_for(size) matches Some(d) && smallest_fit(d, size as int)),
        size > 2048 ==> data_size_for(size) is None,
        size > 2048 ==> forall|d: DataSize| payload_bytes(d) < size,
{
    if size <= 2048 {
        let d = data_size_for(size)->Some_0;
        assert forall|other: DataSize| payload_bytes(other) < payload_bytes(d) implies payload_bytes(
            other,
        ) < size by {
            match other {
                DataSize::S8 => {},
                DataSize::S128 => {},
                DataSize::S256 => {},
                DataSize::S512 => {},
                DataSize::S1024 => {},
                DataSize::S2048 => {},
            }
        }
    } else {
        assert forall|d: DataSize| payload_bytes(d) < size by {
            match d {
                DataSize::S8 => {},
                DataSize::S128 => {},
                DataSize::S256 => {},
                DataSize::S512 => {},
                DataSize::S1024 => {},
                DataSize::S2048 => {},
            }
        }
    }
}

} // verus!
