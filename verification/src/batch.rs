//! Enlarging several images of one size in a row.

use vstd::prelude::*;
use crate::error::Error;
use crate::realesrgan::Answer;
use crate::realesrgan::RealEsrgan;
use crate::realesrgan::Transform;

verus! {

/// What each of `buffers` holds.
pub open spec fn contents(buffers: Seq<Vec<u8>>) -> Seq<Seq<u8>> {
    Seq::new(buffers.len(), |i: int| buffers[i]@)
}

/// Whether a batch comes as far as the input at `at`: none of the inputs
/// before it is turned down.
pub open spec fn comes_to(
    engine: RealEsrgan,
    inputs: Seq<Seq<u8>>,
    width: int,
    height: int,
    at: int,
) -> bool {
    forall|i: int|
        0 <= i < at ==> engine.rejection((#[trigger] inputs[i]).len() as int, width, height)
            is None
}

/// Whether `process` can compute its sizes for every one of `inputs` that a
/// batch can come to. What follows an input that is turned down is never
/// looked at.
pub open spec fn can_process_all(
    engine: RealEsrgan,
    inputs: Seq<Seq<u8>>,
    width: int,
    height: int,
) -> bool {
    forall|i: int|
        0 <= i < inputs.len() && #[trigger] comes_to(engine, inputs, width, height, i)
            ==> engine.can_process(inputs[i].len() as int, width, height)
}

/// How a batch ends once the images before `done.len()` are enlarged into
/// `done`, if it ends there: with `done` when no input is left, and with the
/// error of `rejection` when the next input is turned down. `None` says that
/// the next input is to be handed to the engine.
pub open spec fn batch_end(
    engine: RealEsrgan,
    inputs: Seq<Seq<u8>>,
    width: int,
    height: int,
    done: Seq<Seq<u8>>,
) -> Option<Result<Seq<Seq<u8>>, Error>> {
    if done.len() >= inputs.len() {
        Some(Ok(done))
    } else {
        match engine.rejection(inputs[done.len() as int].len() as int, width, height) {
            Some(error) => Some(Err(error)),
            None => None,
        }
    }
}

/// A batch under way: the images to enlarge, and those already enlarged.
pub struct Batch<'b, 'a> {
    engine: &'b RealEsrgan<'a>,
    inputs: &'b Vec<Vec<u8>>,
    width: usize,
    height: usize,
    outputs: Vec<Vec<u8>>,
}

/// Where a batch stands after a step.
pub enum BatchProgress<'b, 'a> {
    /// The driver is to make the transform on the engine, for the input
    /// that `Batch::input` gives, and to resume the batch with the
    /// transform's buffer and the status that came back.
    Pending(Batch<'b, 'a>, Transform),
    /// The batch has ended.
    Finished(Result<Vec<Vec<u8>>, Error>),
}

impl<'b, 'a> Batch<'b, 'a> {
    /// An input is pending, and the batch has come to it.
    #[verifier::type_invariant]
    spec fn in_range(&self) -> bool {
        &&& self.outputs@.len() < self.inputs@.len()
        &&& can_process_all(
            *self.engine,
            contents(self.inputs@),
            self.width as int,
            self.height as int,
        )
        &&& comes_to(
            *self.engine,
            contents(self.inputs@),
            self.width as int,
            self.height as int,
            self.outputs@.len() as int + 1,
        )
    }

    /// The handle that the batch runs on.
    pub closed spec fn engine(&self) -> RealEsrgan<'a> {
        *self.engine
    }

    /// The images of the batch.
    pub closed spec fn inputs(&self) -> Seq<Seq<u8>> {
        contents(self.inputs@)
    }

    /// The width of every image of the batch.
    pub closed spec fn width(&self) -> usize {
        self.width
    }

    /// The height of every image of the batch.
    pub closed spec fn height(&self) -> usize {
        self.height
    }

    /// The images enlarged so far, in the order of the inputs.
    pub closed spec fn outputs(&self) -> Seq<Seq<u8>> {
        contents(self.outputs@)
    }

    /// The input that the pending transform enlarges: the first one that is
    /// not enlarged yet.
    pub fn input(&self) -> (input: &'b [u8])
        ensures
            self.outputs().len() < self.inputs().len(),
            input@ == self.inputs()[self.outputs().len() as int],
    {
        proof {
            use_type_invariant(self);
        }
        self.inputs[self.outputs.len()].as_slice()
    }

    /// Takes the batch one step on with what the engine made of the pending
    /// transform: `output` is the transform's buffer, `code` the status. A
    /// status other than 0 ends the batch with `ProcessingFailed`; nothing
    /// of what was enlarged before is returned. Otherwise `output` is the
    /// next image of the result, and the batch stands where `batch_end`
    /// says.
    pub fn resume(self, output: Vec<u8>, code: i32) -> (progress: BatchProgress<'b, 'a>)
        ensures
            code != 0 ==> (progress matches BatchProgress::Finished(Err(error)) && error
                == (Error::ProcessingFailed { code })),
            code == 0 ==> progress.stands_at(
                self.engine(),
                self.inputs(),
                self.width(),
                self.height(),
                self.outputs().push(output@),
            ),
    {
        proof {
            use_type_invariant(&self);
        }
        if code != 0 {
            return BatchProgress::Finished(Err(Error::ProcessingFailed { code }));
        }
        let Batch { engine, inputs, width, height, outputs } = self;
        let ghost before = contents(outputs@);
        let mut outputs = outputs;
        outputs.push(output);
        assert(contents(outputs@) =~= before.push(output@));
        Self::proceed(engine, inputs, width, height, outputs)
    }

    /// The step that follows when `outputs` holds the images enlarged so
    /// far.
    fn proceed(
        engine: &'b RealEsrgan<'a>,
        inputs: &'b Vec<Vec<u8>>,
        width: usize,
        height: usize,
        outputs: Vec<Vec<u8>>,
    ) -> (progress: BatchProgress<'b, 'a>)
        requires
            outputs@.len() <= inputs@.len(),
            can_process_all(*engine, contents(inputs@), width as int, height as int),
            comes_to(
                *engine,
                contents(inputs@),
                width as int,
                height as int,
                outputs@.len() as int,
            ),
        ensures
            progress.stands_at(
                *engine,
                contents(inputs@),
                width,
                height,
                contents(outputs@),
            ),
    {
        let next = outputs.len();
        if next >= inputs.len() {
            return BatchProgress::Finished(Ok(outputs));
        }
        match engine.process(inputs[next].as_slice(), width, height) {
            Err(error) => BatchProgress::Finished(Err(error)),
            Ok(transform) => BatchProgress::Pending(
                Batch { engine, inputs, width, height, outputs },
                transform,
            ),
        }
    }
}

impl<'b, 'a> BatchProgress<'b, 'a> {
    /// Whether this is where a batch of `inputs` on `engine` stands once
    /// `done` holds the images enlarged so far: ended as `batch_end` says,
    /// or waiting for the transform that `process` makes ready for the next
    /// input.
    pub open spec fn stands_at(
        self,
        engine: RealEsrgan<'a>,
        inputs: Seq<Seq<u8>>,
        width: usize,
        height: usize,
        done: Seq<Seq<u8>>,
    ) -> bool {
        match self {
            BatchProgress::Pending(batch, transform) => {
                &&& batch_end(engine, inputs, width as int, height as int, done) is None
                &&& batch.engine() == engine
                &&& batch.inputs() == inputs
                &&& batch.width() == width
                &&& batch.height() == height
                &&& batch.outputs() == done
                &&& engine.makes_ready(
                    inputs[done.len() as int].len() as int,
                    width as int,
                    height as int,
                    transform,
                )
            },
            BatchProgress::Finished(Ok(outputs)) => batch_end(
                engine,
                inputs,
                width as int,
                height as int,
                done,
            ) == Some(Ok::<Seq<Seq<u8>>, Error>(contents(outputs@))),
            BatchProgress::Finished(Err(error)) => batch_end(
                engine,
                inputs,
                width as int,
                height as int,
                done,
            ) == Some(Err::<Seq<Seq<u8>>, Error>(error)),
        }
    }
}

impl<'a> RealEsrgan<'a> {
    /// Whether `can_process_all` holds of `inputs`.
    pub fn batch_sizes_fit(
        &self,
        inputs: &Vec<Vec<u8>>,
        width: usize,
        height: usize,
    ) -> (fit: bool)
        ensures
            fit == can_process_all(*self, contents(inputs@), width as int, height as int),
    {
        let ghost all = contents(inputs@);
        let mut at: usize = 0;
        while at < inputs.len()
            invariant
                at <= inputs@.len(),
                all == contents(inputs@),
                comes_to(*self, all, width as int, height as int, at as int),
                forall|i: int|
                    0 <= i < at ==> self.can_process(
                        (#[trigger] all[i]).len() as int,
                        width as int,
                        height as int,
                    ),
            decreases inputs@.len() - at,
        {
            let len = inputs[at].len();
            if !self.sizes_fit(len, width, height) {
                return false;
            }
            if self.rejects(len, width, height).is_some() {
                assert forall|i: int|
                    0 <= i < all.len() && #[trigger] comes_to(
                        *self,
                        all,
                        width as int,
                        height as int,
                        i,
                    ) implies self.can_process(
                    all[i].len() as int,
                    width as int,
                    height as int,
                ) by {
                    if i > at {
                        assert(self.rejection(
                            all[at as int].len() as int,
                            width as int,
                            height as int,
                        ) is Some);
                    }
                }
                return true;
            }
            at = at + 1;
        }
        true
    }

    /// Starts the enlargement of `inputs`, each a `width` by `height` image
    /// as `process` takes it, one after the other in the order given. The
    /// batch ends with the first image that fails, and with the error of
    /// that image.
    pub fn process_batch<'b>(
        &'b self,
        inputs: &'b Vec<Vec<u8>>,
        width: usize,
        height: usize,
    ) -> (progress: BatchProgress<'b, 'a>)
        requires
            can_process_all(*self, contents(inputs@), width as int, height as int),
        ensures
            progress.stands_at(*self, contents(inputs@), width, height, Seq::empty()),
    {
        let outputs: Vec<Vec<u8>> = Vec::new();
        assert(contents(outputs@) =~= Seq::empty());
        Batch::proceed(self, inputs, width, height, outputs)
    }
}

/// How a batch of `inputs` ends when the engine answers the transform of
/// the i-th input with `answers[i]`, given that the images before
/// `done.len()` are enlarged into `done`.
pub open spec fn batch_result(
    engine: RealEsrgan,
    inputs: Seq<Seq<u8>>,
    width: int,
    height: int,
    done: Seq<Seq<u8>>,
    answers: Seq<Answer>,
) -> Result<Seq<Seq<u8>>, Error>
    decreases inputs.len() - done.len(),
{
    match batch_end(engine, inputs, width, height, done) {
        Some(result) => result,
        None => {
            let answer = answers[done.len() as int];
            if answer.code != 0 {
                Err(Error::ProcessingFailed { code: answer.code })
            } else {
                batch_result(engine, inputs, width, height, done.push(answer.output), answers)
            }
        },
    }
}

/// How often such a batch calls `process` from there on: once for every
/// input that it comes to.
pub open spec fn process_calls(
    engine: RealEsrgan,
    inputs: Seq<Seq<u8>>,
    width: int,
    height: int,
    done: Seq<Seq<u8>>,
    answers: Seq<Answer>,
) -> nat
    decreases inputs.len() - done.len(),
{
    if done.len() >= inputs.len() {
        0
    } else if batch_end(engine, inputs, width, height, done) is Some {
        1
    } else {
        let answer = answers[done.len() as int];
        if answer.code != 0 {
            1
        } else {
            1 + process_calls(engine, inputs, width, height, done.push(answer.output), answers)
        }
    }
}

/// Whether the input at `at` is the first of the batch that fails, and
/// fails with `error`.
pub open spec fn first_failure(
    engine: RealEsrgan,
    inputs: Seq<Seq<u8>>,
    width: int,
    height: int,
    answers: Seq<Answer>,
    at: int,
    error: Error,
) -> bool {
    &&& 0 <= at < inputs.len()
    &&& engine.processed(inputs[at].len() as int, width, height, answers[at]) == Err::<
        Seq<u8>,
        Error,
    >(error)
    &&& forall|i: int|
        0 <= i < at ==> (#[trigger] engine.processed(
            inputs[i].len() as int,
            width,
            height,
            answers[i],
        )) is Ok
}

/// Whether `result` is what a batch of n images is to give, and `calls`
/// the number of times it is to call `process`: n enlarged images after n
/// calls, the i-th image being what `process` gives for the i-th input, or
/// the error of the first input that fails, after one call for every input
/// up to that one.
pub open spec fn in_order(
    engine: RealEsrgan,
    inputs: Seq<Seq<u8>>,
    width: int,
    height: int,
    answers: Seq<Answer>,
    result: Result<Seq<Seq<u8>>, Error>,
    calls: int,
) -> bool {
    match result {
        Ok(outputs) => {
            &&& outputs.len() == inputs.len()
            &&& calls == inputs.len()
            &&& forall|i: int|
                0 <= i < inputs.len() ==> (#[trigger] engine.processed(
                    inputs[i].len() as int,
                    width,
                    height,
                    answers[i],
                )) == Ok::<Seq<u8>, Error>(outputs[i])
        },
        Err(error) => exists|at: int|
            first_failure(engine, inputs, width, height, answers, at, error) && calls == at + 1,
    }
}

/// A batch of n images gives n enlarged images, the i-th being what
/// `process` gives for the i-th input, or it fails with the error of the
/// first input that fails, and with nothing else. `process` is called once
/// for every input up to the first that fails, so at most n times, and for
/// no input twice.
pub proof fn lemma_batch_keeps_order(
    engine: RealEsrgan,
    inputs: Seq<Seq<u8>>,
    width: int,
    height: int,
    answers: Seq<Answer>,
)
    ensures
        in_order(
            engine,
            inputs,
            width,
            height,
            answers,
            batch_result(engine, inputs, width, height, Seq::empty(), answers),
            process_calls(engine, inputs, width, height, Seq::empty(), answers) as int,
        ),
        process_calls(engine, inputs, width, height, Seq::empty(), answers) <= inputs.len(),
{
    lemma_batch_from(engine, inputs, width, height, Seq::empty(), answers);
}

/// The same of a batch that has come as far as `done`.
proof fn lemma_batch_from(
    engine: RealEsrgan,
    inputs: Seq<Seq<u8>>,
    width: int,
    height: int,
    done: Seq<Seq<u8>>,
    answers: Seq<Answer>,
)
    requires
        done.len() <= inputs.len(),
        forall|i: int|
            0 <= i < done.len() ==> (#[trigger] engine.processed(
                inputs[i].len() as int,
                width,
                height,
                answers[i],
            )) == Ok::<Seq<u8>, Error>(done[i]),
    ensures
        in_order(
            engine,
            inputs,
            width,
            height,
            answers,
            batch_result(engine, inputs, width, height, done, answers),
            (done.len() + process_calls(engine, inputs, width, height, done, answers)) as int,
        ),
        process_calls(engine, inputs, width, height, done, answers) <= inputs.len() - done.len(),
    decreases inputs.len() - done.len(),
{
    let at = done.len() as int;
    match batch_end(engine, inputs, width, height, done) {
        Some(Ok(outputs)) => {},
        Some(Err(error)) => {
            assert(first_failure(engine, inputs, width, height, answers, at, error));
        },
        None => {
            let answer = answers[at];
            if answer.code != 0 {
                assert(first_failure(
                    engine,
                    inputs,
                    width,
                    height,
                    answers,
                    at,
                    Error::ProcessingFailed { code: answer.code },
                ));
            } else {
                lemma_batch_from(engine, inputs, width, height, done.push(answer.output), answers);
            }
        },
    }
}

} // verus!
