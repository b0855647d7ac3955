use super::shaders::{ShaderProgram, ShaderSet};
use vstd::pervasive::unreached;
use vstd::prelude::*;

verus! {

/// A value that can be handed to the graphics driver as a shader uniform.
pub trait Accept {
    /// Uploads the value to `location` of the bound shader program.
    fn accept(&self, location: i32)
        requires
            location >= 0,
    ;
}

/// Why a uniform could not be made.
#[derive(Copy, Clone, Debug, PartialEq, Eq)]
pub enum UniformError {
    /// The shader program has no uniform at the location: the location is
    /// negative.
    IncorrectLocation,
}

/// A value on its way to a uniform of one shader program. The value is
/// uploaded only when it has changed since the last upload.
pub struct Uniform<T> where T: Accept {
    value: T,
    location: i32,
    shader: u32,
    accepted: bool,
    pushed: Ghost<Seq<T>>,
}

/// A uniform as plain values.
pub struct UniformView<T> {
    /// The value that the program is meant to see.
    pub value: T,
    /// The location of the uniform in its program.
    pub location: i32,
    /// The handle of the program that owns the uniform.
    pub shader: u32,
    /// Whether the driver has the current value.
    pub accepted: bool,
    /// Every value that was uploaded, in the order of the uploads.
    pub pushed: Seq<T>,
}

impl<T> UniformView<T> {
    /// The uniform has a location in its program.
    pub open spec fn wf(self) -> bool {
        self.location >= 0
    }

    /// The uniform after `value` was stored: the driver does not have it
    /// yet.
    pub open spec fn with_value(self, value: T) -> Self {
        UniformView { value, accepted: false, ..self }
    }

    /// The uniform after its value was uploaded.
    pub open spec fn uploaded(self) -> Self {
        UniformView { accepted: true, pushed: self.pushed.push(self.value), ..self }
    }

    /// The uniform after it was brought up to date: uploaded where the
    /// driver did not have the value, unchanged where it did.
    pub open spec fn synced(self) -> Self {
        if self.accepted {
            self
        } else {
            self.uploaded()
        }
    }
}

impl<T> View for Uniform<T> where T: Accept {
    type V = UniformView<T>;

    closed spec fn view(&self) -> UniformView<T> {
        UniformView {
            value: self.value,
            location: self.location,
            shader: self.shader,
            accepted: self.accepted,
            pushed: self.pushed@,
        }
    }
}

/// Bringing a uniform up to date twice uploads no more than doing it once:
/// while the value is not changed, further calls are without effect.
pub proof fn lemma_sync_is_idempotent<T>(uniform: UniformView<T>)
    ensures
        uniform.synced().synced() == uniform.synced(),
        uniform.accepted ==> uniform.synced() == uniform,
{
}

/// Each change of the value is uploaded exactly once: the first time the
/// uniform is brought up to date after the change, and not again after
/// that.
pub proof fn lemma_one_upload_per_change<T>(uniform: UniformView<T>, value: T)
    ensures
        uniform.with_value(value).pushed == uniform.pushed,
        uniform.with_value(value).synced().pushed == uniform.pushed.push(value),
        uniform.with_value(value).synced().synced().pushed == uniform.pushed.push(value),
{
}

impl<T> Uniform<T> where T: Accept {
    /// The uniform has a location in its program.
    pub open spec fn wf(&self) -> bool {
        self@.wf()
    }

    /// A uniform of `shader` at `location` that holds `value`, not yet
    /// uploaded. A negative location is refused.
    pub fn new(value: T, location: i32, shader: &ShaderProgram) -> (r: Result<Self, UniformError>)
        ensures
            location < 0 ==> r == Err::<Self, UniformError>(UniformError::IncorrectLocation),
            location >= 0 ==> r is Ok && r->Ok_0.wf() && r->Ok_0@ == (UniformView {
                value,
                location,
                shader: shader.id,
                accepted: false,
                pushed: Seq::<T>::empty(),
            }),
    {
        if location < 0 {
            return Err(UniformError::IncorrectLocation);
        }
        Ok(
            Uniform {
                value,
                location,
                shader: shader.id(),
                accepted: false,
                pushed: Ghost(Seq::empty()),
            },
        )
    }

    /// Stores `value`; it is uploaded when the uniform is next brought up to
    /// date.
    pub fn set_value(&mut self, value: T)
        ensures
            final(self)@ == old(self)@.with_value(value),
    {
        self.value = value;
        self.accepted = false;
    }

    /// Lets `f` change the value in place; the result is uploaded when the
    /// uniform is next brought up to date.
    pub fn update_value<F>(&mut self, f: F) where F: FnOnce(&mut T)
        requires
            forall|value: &mut T| *value == old(self)@.value ==> call_requires(f, (value,)),
        ensures
            exists|value: &mut T|
                *value == old(self)@.value && *final(value) == final(self)@.value && call_ensures(
                    f,
                    (value,),
                    (),
                ),
            final(self)@ == old(self)@.with_value(final(self)@.value),
    {
        f(&mut self.value);
        self.accepted = false;
    }

    /// Brings the uniform up to date: uploads the value where it has
    /// changed since the last upload, and does nothing where it has not.
    /// The program that owns the uniform must be the bound one whenever
    /// there is something to upload.
    pub fn accept(&mut self, shader: &ShaderSet)
        requires
            old(self).wf(),
            shader.wf(),
            !old(self)@.accepted ==> shader@.is_bound(old(self)@.shader),
        ensures
            final(self)@ == old(self)@.synced(),
    {
        if !self.accepted {
            self.direct_accept(shader);
        }
    }

    /// Brings the uniform up to date where that can be done, and says
    /// whether it was: `false`, with nothing changed, where there is
    /// something to upload while another program is bound, or none.
    pub fn try_accept(&mut self, shader: &ShaderSet) -> (done: bool)
        requires
            old(self).wf(),
            shader.wf(),
        ensures
            done == (old(self)@.accepted || shader@.is_bound(old(self)@.shader)),
            final(self)@ == if done {
                old(self)@.synced()
            } else {
                old(self)@
            },
    {
        if self.accepted {
            return true;
        }
        let bound = match shader.active() {
            Some(active) => active.id() == self.shader,
            None => false,
        };
        if bound {
            self.direct_accept(shader);
        }
        bound
    }

    /// Stores `value` and uploads it at once. The program that owns the
    /// uniform must be the bound one.
    pub fn set(&mut self, value: T, shader: &ShaderSet)
        requires
            old(self).wf(),
            shader.wf(),
            shader@.is_bound(old(self)@.shader),
        ensures
            final(self)@ == old(self)@.with_value(value).uploaded(),
    {
        self.value = value;
        self.direct_accept(shader);
    }

    fn direct_accept(&mut self, shader: &ShaderSet)
        requires
            old(self).wf(),
            shader.wf(),
            shader@.is_bound(old(self)@.shader),
        ensures
            final(self)@ == old(self)@.uploaded(),
    {
        match shader.active() {
            Some(active) if active.id() == self.shader => {
                self.value.accept(self.location);
                self.accepted = true;
                proof {
                    self.pushed@ = self.pushed@.push(self.value);
                }
            },
            _ => unreached(),
        }
    }

    /// Whether the driver has the current value.
    pub fn is_accepted(&self) -> (r: bool)
        ensures
            r == self@.accepted,
    {
        self.accepted
    }

    /// The location of the uniform in its program.
    pub fn location(&self) -> (r: i32)
        ensures
            r == self@.location,
    {
        self.location
    }

    /// The handle of the program that owns the uniform.
    pub fn shader(&self) -> (r: u32)
        ensures
            r == self@.shader,
    {
        self.shader
    }
}

impl<T> Uniform<T> where T: Copy + Accept {
    /// The value that the program is meant to see.
    pub fn get(&self) -> (r: T)
        ensures
            r == self@.value,
    {
        self.value
    }
}

impl<T> AsRef<T> for Uniform<T> where T: Accept {
    fn as_ref(&self) -> (r: &T)
        ensures
            *r == self@.value,
    {
        &self.value
    }
}

impl<T> AsMut<T> for Uniform<T> where T: Accept {
    /// Hands out the value to be changed in place; what it is left as is
    /// uploaded when the uniform is next brought up to date.
    fn as_mut(&mut self) -> (r: &mut T)
        ensures
            *r == old(self)@.value,
            final(self)@ == old(self)@.with_value(*final(r)),
    {
        self.accepted = false;
        &mut self.value
    }
}

} // verus!
