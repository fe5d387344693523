//! Shared data types of the chat core.

use vstd::prelude::*;
use crate::num::JsonNum;

verus! {

/// Who speaks a chat message.
#[derive(Clone, Copy, Debug, PartialEq, Eq, Structural)]
pub enum ChatRole {
    System,
    User,
    Assistant,
}

/// Wire name of a role.
pub open spec fn role_name(r: ChatRole) -> Seq<u8> {
    match r {
        ChatRole::System => seq![115u8, 121u8, 115u8, 116u8, 101u8, 109u8],
        ChatRole::User => seq![117u8, 115u8, 101u8, 114u8],
        ChatRole::Assistant => seq![
            97u8,
            115u8,
            115u8,
            105u8,
            115u8,
            116u8,
            97u8,
            110u8,
            116u8,
        ],
    }
}

/// Appends the wire name of `r`.
pub fn push_role_name(out: &mut Vec<u8>, r: ChatRole)
    ensures
        final(out)@ == old(out)@ + role_name(r),
{
    match r {
        ChatRole::System => {
            out.push(115);
            out.push(121);
            out.push(115);
            out.push(116);
            out.push(101);
            out.push(109);
        },
        ChatRole::User => {
            out.push(117);
            out.push(115);
            out.push(101);
            out.push(114);
        },
        ChatRole::Assistant => {
            out.push(97);
            out.push(115);
            out.push(115);
            out.push(105);
            out.push(115);
            out.push(116);
            out.push(97);
            out.push(110);
            out.push(116);
        },
    }
    proof {
        assert(out@ =~= old(out)@ + role_name(r));
    }
}

/// One role-tagged message of a conversation; the order of a message
/// sequence is significant.
#[derive(Clone, Debug)]
pub struct ChatMessage {
    pub role: ChatRole,
    pub content: String,
}

impl ChatMessage {
    /// The message as (role, UTF-8 content bytes).
    pub open spec fn model(self) -> (ChatRole, Seq<u8>) {
        (self.role, vstd::utf8::encode_utf8(self.content@))
    }
}

/// One OHLCV candle.  Every field is an exact decimal of the number model
/// in [`crate::num`].
#[derive(Clone, Copy, Debug)]
pub struct OHLCV {
    pub open: JsonNum,
    pub high: JsonNum,
    pub low: JsonNum,
    pub close: JsonNum,
    pub volume: JsonNum,
}

impl OHLCV {
    pub open spec fn wf(self) -> bool {
        self.open.wf() && self.high.wf() && self.low.wf() && self.close.wf() && self.volume.wf()
    }

    /// The domain invariants every accepted candle satisfies.
    pub open spec fn valid(self) -> bool {
        self.high.scaled() >= self.low.scaled() && self.low.scaled() <= self.close.scaled()
            && self.close.scaled() <= self.high.scaled() && self.volume.scaled() >= 0
    }
}

} // verus!
