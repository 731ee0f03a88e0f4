//! What floats in space, and how a probe asks for it.

use vstd::prelude::*;
use core::marker::PhantomData;
use std::rc::Rc;
use crate::space::probe::ProbeParam;

verus! {

pub struct IsRock;

pub struct IsDebris;

pub trait Rock {
}

pub trait Debris {
}

#[derive(Debug)]
pub struct Meteoroid(());

#[derive(Debug)]
pub struct Asteroid(());

#[derive(Debug)]
pub struct Meteorite(());

#[derive(Debug)]
pub struct AlienCrap(());

#[derive(Debug)]
pub struct Screw(());

#[derive(Debug)]
pub struct Bolt(());

#[derive(Debug)]
pub struct UFO(Rc<AlienCrap>);

pub trait Collectible {
}

/// A probe parameter that asks for one collectible thing.
#[derive(Debug)]
pub struct Col<T>(PhantomData<T>);

impl<R: Collectible> ProbeParam for Col<R> {
    type Item = R;
}

impl Rock for Meteoroid {
}

impl Rock for Meteorite {
}

impl Rock for Asteroid {
}

impl Debris for AlienCrap {
}

impl Debris for Screw {
}

impl Debris for Bolt {
}

impl Debris for UFO {
}

/// What a finder can look for.
pub trait FinderData {
    type Item;
}

impl<D: FinderData> FinderData for Option<D> {
    type Item = Option<D::Item>;
}

impl FinderData for Meteoroid {
    type Item = Meteoroid;
}

impl FinderData for Meteorite {
    type Item = Meteorite;
}

impl FinderData for Asteroid {
    type Item = Asteroid;
}

impl FinderData for AlienCrap {
    type Item = AlienCrap;
}

impl FinderData for Screw {
    type Item = Screw;
}

impl FinderData for Bolt {
    type Item = Bolt;
}

impl FinderData for UFO {
    type Item = UFO;
}

/// A probe parameter that asks for everything of the kinds `D` in reach.
pub struct Finder<D: FinderData>(PhantomData<D>);

impl<D: FinderData> ProbeParam for Finder<D> {
    type Item = <D as FinderData>::Item;
}

impl<F0: FinderData> FinderData for (F0,) {
    type Item = (F0::Item,);
}

impl<F0: FinderData, F1: FinderData> FinderData for (F0, F1) {
    type Item = (F0::Item, F1::Item);
}

impl<F0: FinderData, F1: FinderData, F2: FinderData> FinderData for (F0, F1, F2) {
    type Item = (F0::Item, F1::Item, F2::Item);
}

impl<F0: FinderData, F1: FinderData, F2: FinderData, F3: FinderData> FinderData
    for (F0, F1, F2, F3) {
    type Item = (F0::Item, F1::Item, F2::Item, F3::Item);
}

impl<F0: FinderData, F1: FinderData, F2: FinderData, F3: FinderData, F4: FinderData> FinderData
    for (F0, F1, F2, F3, F4) {
    type Item = (F0::Item, F1::Item, F2::Item, F3::Item, F4::Item);
}

impl<F0: FinderData, F1: FinderData, F2: FinderData, F3: FinderData, F4: FinderData, F5: FinderData> FinderData
    for (F0, F1, F2, F3, F4, F5) {
    type Item = (F0::Item, F1::Item, F2::Item, F3::Item, F4::Item, F5::Item);
}

impl<
    F0: FinderData, F1: FinderData, F2: FinderData, F3: FinderData, F4: FinderData, F5: FinderData,
    F6: FinderData,
> FinderData
    for (F0, F1, F2, F3, F4, F5, F6) {
    type Item = (F0::Item, F1::Item, F2::Item, F3::Item, F4::Item, F5::Item, F6::Item);
}

impl<
    F0: FinderData, F1: FinderData, F2: FinderData, F3: FinderData, F4: FinderData, F5: FinderData,
    F6: FinderData, F7: FinderData,
> FinderData
    for (F0, F1, F2, F3, F4, F5, F6, F7) {
    type Item = (F0::Item, F1::Item, F2::Item, F3::Item, F4::Item, F5::Item, F6::Item, F7::Item);
}

impl<
    F0: FinderData, F1: FinderData, F2: FinderData, F3: FinderData, F4: FinderData, F5: FinderData,
    F6: FinderData, F7: FinderData, F8: FinderData,
> FinderData
    for (F0, F1, F2, F3, F4, F5, F6, F7, F8) {
    type Item = (F0::Item, F1::Item, F2::Item, F3::Item, F4::Item, F5::Item, F6::Item, F7::Item, F8::Item);
}

impl<
    F0: FinderData, F1: FinderData, F2: FinderData, F3: FinderData, F4: FinderData, F5: FinderData,
    F6: FinderData, F7: FinderData, F8: FinderData, F9: FinderData,
> FinderData
    for (F0, F1, F2, F3, F4, F5, F6, F7, F8, F9) {
    type Item = (
        F0::Item, F1::Item, F2::Item, F3::Item, F4::Item, F5::Item, F6::Item, F7::Item, F8::Item,
        F9::Item,
    );
}

impl<
    F0: FinderData, F1: FinderData, F2: FinderData, F3: FinderData, F4: FinderData, F5: FinderData,
    F6: FinderData, F7: FinderData, F8: FinderData, F9: FinderData, F10: FinderData,
> FinderData
    for (F0, F1, F2, F3, F4, F5, F6, F7, F8, F9, F10) {
    type Item = (
        F0::Item, F1::Item, F2::Item, F3::Item, F4::Item, F5::Item, F6::Item, F7::Item, F8::Item,
        F9::Item, F10::Item,
    );
}

impl<
    F0: FinderData, F1: FinderData, F2: FinderData, F3: FinderData, F4: FinderData, F5: FinderData,
    F6: FinderData, F7: FinderData, F8: FinderData, F9: FinderData, F10: FinderData,
    F11: FinderData,
> FinderData
    for (F0, F1, F2, F3, F4, F5, F6, F7, F8, F9, F10, F11) {
    type Item = (
        F0::Item, F1::Item, F2::Item, F3::Item, F4::Item, F5::Item, F6::Item, F7::Item, F8::Item,
        F9::Item, F10::Item, F11::Item,
    );
}

impl<
    F0: FinderData, F1: FinderData, F2: FinderData, F3: FinderData, F4: FinderData, F5: FinderData,
    F6: FinderData, F7: FinderData, F8: FinderData, F9: FinderData, F10: FinderData,
    F11: FinderData, F12: FinderData,
> FinderData
    for (F0, F1, F2, F3, F4, F5, F6, F7, F8, F9, F10, F11, F12) {
    type Item = (
        F0::Item, F1::Item, F2::Item, F3::Item, F4::Item, F5::Item, F6::Item, F7::Item, F8::Item,
        F9::Item, F10::Item, F11::Item, F12::Item,
    );
}

impl<
    F0: FinderData, F1: FinderData, F2: FinderData, F3: FinderData, F4: FinderData, F5: FinderData,
    F6: FinderData, F7: FinderData, F8: FinderData, F9: FinderData, F10: FinderData,
    F11: FinderData, F12: FinderData, F13: FinderData,
> FinderData
    for (F0, F1, F2, F3, F4, F5, F6, F7, F8, F9, F10, F11, F12, F13) {
    type Item = (
        F0::Item, F1::Item, F2::Item, F3::Item, F4::Item, F5::Item, F6::Item, F7::Item, F8::Item,
        F9::Item, F10::Item, F11::Item, F12::Item, F13::Item,
    );
}

impl<
    F0: FinderData, F1: FinderData, F2: FinderData, F3: FinderData, F4: FinderData, F5: FinderData,
    F6: FinderData, F7: FinderData, F8: FinderData, F9: FinderData, F10: FinderData,
    F11: FinderData, F12: FinderData, F13: FinderData, F14: FinderData,
> FinderData
    for (F0, F1, F2, F3, F4, F5, F6, F7, F8, F9, F10, F11, F12, F13, F14) {
    type Item = (
        F0::Item, F1::Item, F2::Item, F3::Item, F4::Item, F5::Item, F6::Item, F7::Item, F8::Item,
        F9::Item, F10::Item, F11::Item, F12::Item, F13::Item, F14::Item,
    );
}

impl<F0: Rock> Rock for (F0,) {
}

impl<F0: Rock, F1: Rock> Rock for (F0, F1) {
}

impl<F0: Rock, F1: Rock, F2: Rock> Rock for (F0, F1, F2) {
}

impl<F0: Rock, F1: Rock, F2: Rock, F3: Rock> Rock for (F0, F1, F2, F3) {
}

impl<F0: Rock, F1: Rock, F2: Rock, F3: Rock, F4: Rock> Rock for (F0, F1, F2, F3, F4) {
}

impl<F0: Rock, F1: Rock, F2: Rock, F3: Rock, F4: Rock, F5: Rock> Rock
    for (F0, F1, F2, F3, F4, F5) {
}

impl<F0: Rock, F1: Rock, F2: Rock, F3: Rock, F4: Rock, F5: Rock, F6: Rock> Rock
    for (F0, F1, F2, F3, F4, F5, F6) {
}

impl<F0: Rock, F1: Rock, F2: Rock, F3: Rock, F4: Rock, F5: Rock, F6: Rock, F7: Rock> Rock
    for (F0, F1, F2, F3, F4, F5, F6, F7) {
}

impl<F0: Rock, F1: Rock, F2: Rock, F3: Rock, F4: Rock, F5: Rock, F6: Rock, F7: Rock, F8: Rock> Rock
    for (F0, F1, F2, F3, F4, F5, F6, F7, F8) {
}

impl<
    F0: Rock, F1: Rock, F2: Rock, F3: Rock, F4: Rock, F5: Rock, F6: Rock, F7: Rock, F8: Rock,
    F9: Rock,
> Rock
    for (F0, F1, F2, F3, F4, F5, F6, F7, F8, F9) {
}

impl<
    F0: Rock, F1: Rock, F2: Rock, F3: Rock, F4: Rock, F5: Rock, F6: Rock, F7: Rock, F8: Rock,
    F9: Rock, F10: Rock,
> Rock
    for (F0, F1, F2, F3, F4, F5, F6, F7, F8, F9, F10) {
}

impl<
    F0: Rock, F1: Rock, F2: Rock, F3: Rock, F4: Rock, F5: Rock, F6: Rock, F7: Rock, F8: Rock,
    F9: Rock, F10: Rock, F11: Rock,
> Rock
    for (F0, F1, F2, F3, F4, F5, F6, F7, F8, F9, F10, F11) {
}

impl<
    F0: Rock, F1: Rock, F2: Rock, F3: Rock, F4: Rock, F5: Rock, F6: Rock, F7: Rock, F8: Rock,
    F9: Rock, F10: Rock, F11: Rock, F12: Rock,
> Rock
    for (F0, F1, F2, F3, F4, F5, F6, F7, F8, F9, F10, F11, F12) {
}

impl<
    F0: Rock, F1: Rock, F2: Rock, F3: Rock, F4: Rock, F5: Rock, F6: Rock, F7: Rock, F8: Rock,
    F9: Rock, F10: Rock, F11: Rock, F12: Rock, F13: Rock,
> Rock
    for (F0, F1, F2, F3, F4, F5, F6, F7, F8, F9, F10, F11, F12, F13) {
}

impl<
    F0: Rock, F1: Rock, F2: Rock, F3: Rock, F4: Rock, F5: Rock, F6: Rock, F7: Rock, F8: Rock,
    F9: Rock, F10: Rock, F11: Rock, F12: Rock, F13: Rock, F14: Rock,
> Rock
    for (F0, F1, F2, F3, F4, F5, F6, F7, F8, F9, F10, F11, F12, F13, F14) {
}

impl<F0: Debris> Debris for (F0,) {
}

impl<F0: Debris, F1: Debris> Debris for (F0, F1) {
}

impl<F0: Debris, F1: Debris, F2: Debris> Debris for (F0, F1, F2) {
}

impl<F0: Debris, F1: Debris, F2: Debris, F3: Debris> Debris for (F0, F1, F2, F3) {
}

impl<F0: Debris, F1: Debris, F2: Debris, F3: Debris, F4: Debris> Debris
    for (F0, F1, F2, F3, F4) {
}

impl<F0: Debris, F1: Debris, F2: Debris, F3: Debris, F4: Debris, F5: Debris> Debris
    for (F0, F1, F2, F3, F4, F5) {
}

impl<F0: Debris, F1: Debris, F2: Debris, F3: Debris, F4: Debris, F5: Debris, F6: Debris> Debris
    for (F0, F1, F2, F3, F4, F5, F6) {
}

impl<F0: Debris, F1: Debris, F2: Debris, F3: Debris, F4: Debris, F5: Debris, F6: Debris, F7: Debris> Debris
    for (F0, F1, F2, F3, F4, F5, F6, F7) {
}

impl<
    F0: Debris, F1: Debris, F2: Debris, F3: Debris, F4: Debris, F5: Debris, F6: Debris, F7: Debris,
    F8: Debris,
> Debris
    for (F0, F1, F2, F3, F4, F5, F6, F7, F8) {
}

impl<
    F0: Debris, F1: Debris, F2: Debris, F3: Debris, F4: Debris, F5: Debris, F6: Debris, F7: Debris,
    F8: Debris, F9: Debris,
> Debris
    for (F0, F1, F2, F3, F4, F5, F6, F7, F8, F9) {
}

impl<
    F0: Debris, F1: Debris, F2: Debris, F3: Debris, F4: Debris, F5: Debris, F6: Debris, F7: Debris,
    F8: Debris, F9: Debris, F10: Debris,
> Debris
    for (F0, F1, F2, F3, F4, F5, F6, F7, F8, F9, F10) {
}

impl<
    F0: Debris, F1: Debris, F2: Debris, F3: Debris, F4: Debris, F5: Debris, F6: Debris, F7: Debris,
    F8: Debris, F9: Debris, F10: Debris, F11: Debris,
> Debris
    for (F0, F1, F2, F3, F4, F5, F6, F7, F8, F9, F10, F11) {
}

impl<
    F0: Debris, F1: Debris, F2: Debris, F3: Debris, F4: Debris, F5: Debris, F6: Debris, F7: Debris,
    F8: Debris, F9: Debris, F10: Debris, F11: Debris, F12: Debris,
> Debris
    for (F0, F1, F2, F3, F4, F5, F6, F7, F8, F9, F10, F11, F12) {
}

impl<
    F0: Debris, F1: Debris, F2: Debris, F3: Debris, F4: Debris, F5: Debris, F6: Debris, F7: Debris,
    F8: Debris, F9: Debris, F10: Debris, F11: Debris, F12: Debris, F13: Debris,
> Debris
    for (F0, F1, F2, F3, F4, F5, F6, F7, F8, F9, F10, F11, F12, F13) {
}

impl<
    F0: Debris, F1: Debris, F2: Debris, F3: Debris, F4: Debris, F5: Debris, F6: Debris, F7: Debris,
    F8: Debris, F9: Debris, F10: Debris, F11: Debris, F12: Debris, F13: Debris, F14: Debris,
> Debris
    for (F0, F1, F2, F3, F4, F5, F6, F7, F8, F9, F10, F11, F12, F13, F14) {
}

/// What a finder has found, one thing after the other.
pub struct QueryIter<D>(PhantomData<D>);

impl<D: FinderData> Finder<D> {
    /// What the finder has found.
    pub fn into_iter(&self) -> QueryIter<<D as FinderData>::Item> {
        QueryIter(PhantomData)
    }
}

impl<D> QueryIter<D> {
    /// The next thing found. Nothing is ever found.
    pub fn next(&mut self) -> (item: Option<D>)
        ensures
            item is None,
    {
        None
    }
}

} // verus!
